//! The client's `config.json` settings, the template written on first start,
//! and the checks that decide whether the settings can be used.

use vstd::prelude::*;
use crate::text::{all_white_space, has_prefix, is_blank, starts_with, white_space};

verus! {

/// The client settings (`ServerUrl`, `RoomId`, `Token` in the JSON file).
#[derive(Debug)]
pub struct AppConfig {
    pub server_url: String,
    pub room_id: String,
    pub token: String,
}

impl Clone for AppConfig {
    fn clone(&self) -> (r: Self)
        ensures
            r == *self,
    {
        AppConfig {
            server_url: self.server_url.clone(),
            room_id: self.room_id.clone(),
            token: self.token.clone(),
        }
    }
}

/// The `ServerUrl` of the template.
pub open spec fn template_server_url() -> Seq<char> {
    "wss://clip.ornek.com/ws"@
}

/// The `RoomId` of the template.
pub open spec fn template_room_id() -> Seq<char> {
    "okan-home"@
}

/// The `Token` of the template.
pub open spec fn template_token() -> Seq<char> {
    "uzun-rastgele-string-buraya"@
}

/// A configuration that still holds the template's server URL or token: the user
/// has not filled it in.
pub open spec fn looks_like_template(c: AppConfig) -> bool {
    c.server_url@ == template_server_url() || c.token@ == template_token()
}

/// Why a configuration cannot be used.
#[derive(Debug)]
pub enum ConfigError {
    /// `ServerUrl` does not start with `ws://` or `wss://`; holds the URL.
    BadServerUrl(String),
    /// `RoomId` is empty or white space only.
    EmptyRoomId,
    /// `Token` is empty or white space only.
    EmptyToken,
}

/// A configuration error with its text as a character sequence.
pub enum ConfigProblem {
    BadServerUrl(Seq<char>),
    EmptyRoomId,
    EmptyToken,
}

impl View for ConfigError {
    type V = ConfigProblem;

    open spec fn view(&self) -> ConfigProblem {
        match self {
            ConfigError::BadServerUrl(u) => ConfigProblem::BadServerUrl(u@),
            ConfigError::EmptyRoomId => ConfigProblem::EmptyRoomId,
            ConfigError::EmptyToken => ConfigProblem::EmptyToken,
        }
    }
}

/// The server URL names a WebSocket endpoint: it starts with `ws://` or `wss://`.
pub open spec fn websocket_url(u: Seq<char>) -> bool {
    has_prefix(u, "ws://"@) || has_prefix(u, "wss://"@)
}

/// The first problem of a configuration, checked in the order URL, room, token;
/// `None` when it can be used.
pub open spec fn config_problem(c: AppConfig) -> Option<ConfigProblem> {
    if !websocket_url(c.server_url@) {
        Some(ConfigProblem::BadServerUrl(c.server_url@))
    } else if all_white_space(c.room_id@) {
        Some(ConfigProblem::EmptyRoomId)
    } else if all_white_space(c.token@) {
        Some(ConfigProblem::EmptyToken)
    } else {
        None
    }
}

/// A text holds a character that is not white space.
pub open spec fn has_visible_char(s: Seq<char>) -> bool {
    exists|i: int| 0 <= i < s.len() && !white_space(#[trigger] s[i])
}

/// A configuration whose URL starts with `ws://` or `wss://` and whose room and
/// token each hold a character that is not white space has no problem, whatever
/// their length or content otherwise.
pub proof fn lemma_usable_config_passes(c: AppConfig)
    requires
        has_prefix(c.server_url@, "ws://"@) || has_prefix(c.server_url@, "wss://"@),
        has_visible_char(c.room_id@),
        has_visible_char(c.token@),
    ensures
        config_problem(c) is None,
{
    let i = choose|i: int| 0 <= i < c.room_id@.len() && !white_space(#[trigger] c.room_id@[i]);
    let j = choose|j: int| 0 <= j < c.token@.len() && !white_space(#[trigger] c.token@[j]);
    assert(!white_space(c.room_id@[i]));
    assert(!white_space(c.token@[j]));
}

/// With a good URL and room, the token is refused exactly when it is white space
/// only (or empty); the room is refused exactly when it is; and a URL is refused
/// exactly when it starts with neither `ws://` nor `wss://`.
pub proof fn lemma_problems_are_exact(c: AppConfig)
    ensures
        (config_problem(c) matches Some(ConfigProblem::BadServerUrl(u)))
            <==> !(has_prefix(c.server_url@, "ws://"@) || has_prefix(c.server_url@, "wss://"@)),
        (has_prefix(c.server_url@, "ws://"@) || has_prefix(c.server_url@, "wss://"@)) ==>
            ((config_problem(c) == Some(ConfigProblem::EmptyRoomId)) <==> !has_visible_char(c.room_id@)),
        (has_prefix(c.server_url@, "ws://"@) || has_prefix(c.server_url@, "wss://"@)) && has_visible_char(c.room_id@) ==>
            ((config_problem(c) == Some(ConfigProblem::EmptyToken)) <==> !has_visible_char(c.token@)),
{
    if has_visible_char(c.room_id@) {
        let i = choose|i: int| 0 <= i < c.room_id@.len() && !white_space(#[trigger] c.room_id@[i]);
        assert(!white_space(c.room_id@[i]));
    }
    if has_visible_char(c.token@) {
        let j = choose|j: int| 0 <= j < c.token@.len() && !white_space(#[trigger] c.token@[j]);
        assert(!white_space(c.token@[j]));
    }
}

/// The message shown for a configuration problem.
pub open spec fn problem_message(p: ConfigProblem) -> Seq<char> {
    match p {
        ConfigProblem::BadServerUrl(u) => "ServerUrl `ws://` veya `wss://` ile başlamalı: "@ + u,
        ConfigProblem::EmptyRoomId => "RoomId boş olamaz"@,
        ConfigProblem::EmptyToken => "Token boş olamaz"@,
    }
}

impl ConfigError {
    /// The text that tells the user what is wrong.
    pub fn message(&self) -> (r: String)
        ensures
            r@ == problem_message(self@),
    {
        match self {
            ConfigError::BadServerUrl(u) => {
                let mut s = String::from_str("ServerUrl `ws://` veya `wss://` ile başlamalı: ");
                s.append(u.as_str());
                s
            },
            ConfigError::EmptyRoomId => String::from_str("RoomId boş olamaz"),
            ConfigError::EmptyToken => String::from_str("Token boş olamaz"),
        }
    }
}

impl AppConfig {
    /// The example settings written to `config.json` on first start.
    pub fn template() -> (r: Self)
        ensures
            r.server_url@ == template_server_url(),
            r.room_id@ == template_room_id(),
            r.token@ == template_token(),
    {
        AppConfig {
            server_url: String::from_str("wss://clip.ornek.com/ws"),
            room_id: String::from_str("okan-home"),
            token: String::from_str("uzun-rastgele-string-buraya"),
        }
    }

    /// Whether the user has not edited the example values yet (the server URL or
    /// the token is still the template's).
    pub fn is_template(&self) -> (r: bool)
        ensures
            r == looks_like_template(*self),
    {
        let t = Self::template();
        self.server_url == t.server_url || self.token == t.token
    }

    /// Checks that the server URL is a `ws://` or `wss://` URL and that the room
    /// and the token are not blank, reporting the first problem found.
    pub fn validate(&self) -> (r: Result<(), ConfigError>)
        ensures
            match r {
                Ok(()) => config_problem(*self) is None,
                Err(e) => config_problem(*self) == Some(e@),
            },
    {
        let url = self.server_url.as_str();
        if !(starts_with(url, "ws://") || starts_with(url, "wss://")) {
            return Err(ConfigError::BadServerUrl(self.server_url.clone()));
        }
        if is_blank(self.room_id.as_str()) {
            return Err(ConfigError::EmptyRoomId);
        }
        if is_blank(self.token.as_str()) {
            return Err(ConfigError::EmptyToken);
        }
        Ok(())
    }
}

/// The outcome of reading the client settings at start-up.
#[derive(Debug)]
pub enum FirstRun {
    /// The settings were read and passed the checks.
    Loaded(AppConfig),
    /// There was no configuration file; the template was written at this path.
    TemplateWritten(String),
    /// The file at this path still holds the template's values.
    NeedsEdit(String),
}

/// Decides what a configuration read from the file at `path` means: still the
/// template (the user must edit it), unusable, or ready.
pub fn classify_loaded(cfg: AppConfig, path: String) -> (r: Result<FirstRun, ConfigError>)
    ensures
        looks_like_template(cfg) ==> (r matches Ok(FirstRun::NeedsEdit(p)) && p@ == path@),
        !looks_like_template(cfg) && config_problem(cfg) is None ==> r == Ok::<FirstRun, ConfigError>(FirstRun::Loaded(cfg)),
        !looks_like_template(cfg) && config_problem(cfg) is Some ==> (r matches Err(e) && config_problem(cfg) == Some(e@)),
{
    if cfg.is_template() {
        return Ok(FirstRun::NeedsEdit(path));
    }
    match cfg.validate() {
        Ok(()) => Ok(FirstRun::Loaded(cfg)),
        Err(e) => Err(e),
    }
}

} // verus!
