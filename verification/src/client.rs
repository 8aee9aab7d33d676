//! The client's side of the relay connection: the address it connects to, the
//! decisions of one connection session, and the waits between attempts.
//! Connecting, sending and receiving frames, timers and JSON happen outside the
//! library, which is handed what happened and answers what to do.

use vstd::prelude::*;
use crate::clock::{format_rfc3339, rfc3339_text, SecondsDigits, UtcStamp};
use crate::keepalive::{keepalive_tick, Keepalive, TickAction};
use crate::wire::{utf8_len, WireMessage};

verus! {

/// What the connection needs to know.
#[derive(Debug)]
pub struct WsConfig {
    /// The relay's WebSocket URL (`ServerUrl`).
    pub url: String,
    pub room_id: String,
    pub token: String,
    /// The name of this machine, sent with each clip.
    pub source_machine: String,
}

/// Requests from the user interface to the connection.
#[derive(Debug)]
pub enum WsCommand {
    /// Send this clipboard text.
    SendClip(String),
    /// Drop the connection and connect again.
    Reconnect,
    /// Close the connection and stop.
    Shutdown,
}

/// Reports from the connection to the user interface.
#[derive(Debug)]
pub enum WsEvent {
    Connected,
    Disconnected,
    /// The next attempt follows in `in_ms` milliseconds.
    Reconnecting { in_ms: u64 },
    /// A clip arrived from the relay.
    Clip { text: String, source_machine: String, timestamp: String },
}

/// How a connection session ended.
#[derive(Debug, Clone, Copy, PartialEq, Eq, Structural)]
pub enum SessionEnd {
    /// Stop for good.
    Shutdown,
    /// The connection closed; try again.
    Closed,
    /// The connection failed; try again.
    Failed,
}

/// The server URL did not parse.
#[derive(Debug, Clone, Copy, PartialEq, Eq, Structural)]
pub enum WsError {
    BadServerUrl,
}

#[verifier::external_type_specification]
#[verifier::external_body]
pub struct ExUrlParseError(url::ParseError);

/// The most UTF-8 bytes that the texts making up a session URL may hold
/// together (64 MiB). `url` keeps positions as 32-bit numbers; within this bound
/// the serialised URL, even with every byte percent-encoded, stays far below 4 GiB.
pub const URL_INPUT_LIMIT: usize = 67108864;

/// The query key that names the room.
pub const ROOM_KEY: &'static str = "room";

/// The query key that carries the token.
pub const TOKEN_KEY: &'static str = "token";

/// The base URL and the query pairs are small enough to be handed to `url`.
pub open spec fn url_inputs_fit(base: Seq<char>, k1: Seq<char>, v1: Seq<char>, k2: Seq<char>, v2: Seq<char>) -> bool {
    utf8_len(base) + utf8_len(k1) + utf8_len(v1) + utf8_len(k2) + utf8_len(v2) <= URL_INPUT_LIMIT
}

/// What `url` makes of the base URL with the query pairs `k1=v1` and `k2=v2`
/// appended: `None` when the base does not parse, else the serialised URL.
pub uninterp spec fn url_with_pairs(
    base: Seq<char>,
    k1: Seq<char>,
    v1: Seq<char>,
    k2: Seq<char>,
    v2: Seq<char>,
) -> Option<Seq<char>>;

/// Calls `url::Url::parse` on `base`, appends the pairs `k1=v1` and `k2=v2` with
/// `query_pairs_mut().append_pair` (form-urlencoded), and serialises the URL with
/// `to_string`. The result depends on the five texts alone and is named
/// `url_with_pairs`; its form is not stated. The size bound keeps `url` from
/// overflowing its 32-bit positions when it puts a fragment back after the query.
#[verifier::external_body]
fn url_with_query(base: &str, k1: &str, v1: &str, k2: &str, v2: &str) -> (r: Result<String, url::ParseError>)
    requires
        url_inputs_fit(base@, k1@, v1@, k2@, v2@),
    ensures
        match r {
            Ok(s) => url_with_pairs(base@, k1@, v1@, k2@, v2@) == Some(s@),
            Err(_) => url_with_pairs(base@, k1@, v1@, k2@, v2@) is None,
        },
{
    let mut url = url::Url::parse(base)?;
    url.query_pairs_mut().append_pair(k1, v1).append_pair(k2, v2);
    Ok(url.to_string())
}

/// The address a session connects to: the server URL with the room and the token
/// as the query parameters `room` and `token`. Texts too large for `url`, and a
/// server URL that does not parse, give `BadServerUrl`.
pub fn session_url(cfg: &WsConfig) -> (r: Result<String, WsError>)
    ensures
        match r {
            Ok(s) => url_inputs_fit(cfg.url@, ROOM_KEY@, cfg.room_id@, TOKEN_KEY@, cfg.token@)
                && url_with_pairs(cfg.url@, ROOM_KEY@, cfg.room_id@, TOKEN_KEY@, cfg.token@) == Some(s@),
            Err(e) => e == WsError::BadServerUrl && (!url_inputs_fit(cfg.url@, ROOM_KEY@, cfg.room_id@, TOKEN_KEY@, cfg.token@)
                || url_with_pairs(cfg.url@, ROOM_KEY@, cfg.room_id@, TOKEN_KEY@, cfg.token@) is None),
        },
{
    let sizes = [
        cfg.url.as_str().as_bytes().len(),
        ROOM_KEY.as_bytes().len(),
        cfg.room_id.as_str().as_bytes().len(),
        TOKEN_KEY.as_bytes().len(),
        cfg.token.as_str().as_bytes().len(),
    ];
    if sizes[0] > URL_INPUT_LIMIT || sizes[1] > URL_INPUT_LIMIT || sizes[2] > URL_INPUT_LIMIT
        || sizes[3] > URL_INPUT_LIMIT || sizes[4] > URL_INPUT_LIMIT {
        return Err(WsError::BadServerUrl);
    }
    if sizes[0] + sizes[1] + sizes[2] + sizes[3] + sizes[4] > URL_INPUT_LIMIT {
        return Err(WsError::BadServerUrl);
    }
    match url_with_query(cfg.url.as_str(), ROOM_KEY, cfg.room_id.as_str(), TOKEN_KEY, cfg.token.as_str()) {
        Ok(s) => Ok(s),
        Err(_) => Err(WsError::BadServerUrl),
    }
}

/// The first wait, in milliseconds.
pub const INITIAL_BACKOFF_MS: u64 = 1000;

/// The longest wait, in milliseconds.
pub const MAX_BACKOFF_MS: u64 = 30000;

/// The wait after a session: one second after a session that had connected (a
/// successful connection resets the backoff) or after the first attempt, and
/// otherwise twice the previous wait, at most thirty seconds.
pub open spec fn next_backoff(prev: u64, connected: bool) -> u64 {
    if connected || prev == 0 {
        INITIAL_BACKOFF_MS
    } else if prev * 2 > MAX_BACKOFF_MS {
        MAX_BACKOFF_MS
    } else {
        (prev * 2) as u64
    }
}

/// What follows a session.
#[derive(Debug, Clone, Copy, PartialEq, Eq, Structural)]
pub enum AfterSession {
    /// Stop the connection task.
    Stop,
    /// Report the disconnection, wait `wait_ms` milliseconds and connect again.
    Retry { wait_ms: u64 },
}

/// The exponential backoff between connection attempts.
#[derive(Debug)]
pub struct Backoff {
    delay_ms: u64,
}

impl Backoff {
    #[verifier::type_invariant]
    spec fn well_formed(self) -> bool {
        self.delay_ms == 0 || INITIAL_BACKOFF_MS <= self.delay_ms <= MAX_BACKOFF_MS
    }

    /// The last wait (0 before the first session ended).
    pub closed spec fn delay(self) -> u64 {
        self.delay_ms
    }

    /// No session has ended yet.
    pub fn new() -> (r: Self)
        ensures
            r.delay() == 0,
    {
        Backoff { delay_ms: 0 }
    }

    /// A session ended as `end`; `connected` tells whether it had connected.
    pub fn after_session(&mut self, end: SessionEnd, connected: bool) -> (r: AfterSession)
        ensures
            end == SessionEnd::Shutdown ==> r == AfterSession::Stop
                && final(self).delay() == old(self).delay(),
            end != SessionEnd::Shutdown ==> final(self).delay() == next_backoff(old(self).delay(), connected)
                && r == (AfterSession::Retry { wait_ms: final(self).delay() }),
            INITIAL_BACKOFF_MS <= final(self).delay() <= MAX_BACKOFF_MS || final(self).delay() == 0,
    {
        proof { use_type_invariant(&*self); }
        match end {
            SessionEnd::Shutdown => AfterSession::Stop,
            _ => {
                let next = if connected || self.delay_ms == 0 {
                    INITIAL_BACKOFF_MS
                } else if self.delay_ms > MAX_BACKOFF_MS / 2 {
                    MAX_BACKOFF_MS
                } else {
                    self.delay_ms * 2
                };
                self.delay_ms = next;
                AfterSession::Retry { wait_ms: next }
            },
        }
    }
}

/// Waits stay between one and thirty seconds, and each failed attempt at least
/// doubles the wait until the cap.
pub proof fn lemma_backoff_bounds(prev: u64, connected: bool)
    requires
        prev == 0 || INITIAL_BACKOFF_MS <= prev <= MAX_BACKOFF_MS,
    ensures
        INITIAL_BACKOFF_MS <= next_backoff(prev, connected) <= MAX_BACKOFF_MS,
        !connected && prev > 0 ==> next_backoff(prev, connected) == if 2 * prev <= MAX_BACKOFF_MS {
            2 * prev
        } else {
            MAX_BACKOFF_MS as int
        },
        connected ==> next_backoff(prev, connected) == INITIAL_BACKOFF_MS,
{
}

/// From the start, failed attempts wait 1, 2, 4, 8, 16 and then 30 seconds, and
/// stay at 30.
pub proof fn lemma_backoff_sequence()
    ensures
        next_backoff(0, false) == 1000,
        next_backoff(1000, false) == 2000,
        next_backoff(2000, false) == 4000,
        next_backoff(4000, false) == 8000,
        next_backoff(8000, false) == 16000,
        next_backoff(16000, false) == 30000,
        next_backoff(30000, false) == 30000,
{
}

/// Something that happened during a session.
#[derive(Debug)]
pub enum ClientInput {
    /// A request from the user interface.
    Command(WsCommand),
    /// The user interface is gone.
    CommandsClosed,
    /// A text frame that decoded to a wire message.
    Wire(WireMessage),
    /// A text frame that did not decode (an unknown `type`, or not JSON).
    Unparsable,
    /// The server closed the connection.
    CloseFrame,
    /// A frame of another kind.
    OtherFrame,
    /// The stream of frames ended.
    StreamEnded,
    /// Receiving failed.
    StreamFailed,
    /// The ping timer fired.
    PingTick,
}

/// What to do about it.
#[derive(Debug)]
pub enum ClientStep {
    Nothing,
    /// Send this message; if sending fails, the session ends as `Closed`.
    Send(WireMessage),
    /// Send this message; a failure to send is ignored.
    Reply(WireMessage),
    /// Report this to the user interface.
    Emit(WsEvent),
    /// Close the connection, then end the session.
    CloseThenEnd(SessionEnd),
    /// End the session.
    End(SessionEnd),
}

/// The decisions of one connection session.
#[derive(Debug)]
pub struct ClientSession {
    source_machine: String,
    keepalive: Keepalive,
}

impl ClientSession {
    /// The name of this machine, sent with each clip.
    pub closed spec fn source(self) -> Seq<char> {
        self.source_machine@
    }

    /// Pings sent since the last `pong`.
    pub closed spec fn unanswered_pings(self) -> nat {
        self.keepalive.unanswered_pings()
    }

    /// A session that has just connected.
    pub fn new(source_machine: String) -> (r: Self)
        ensures
            r.source() == source_machine@,
            r.unanswered_pings() == 0,
    {
        ClientSession { source_machine, keepalive: Keepalive::new() }
    }

    /// Decides what to do about `input`; `now` is the UTC clock's reading. Clips are
    /// sent with this machine's name and `now` in RFC 3339 form, to the second, with
    /// `Z`; a received clip is handed to the user interface; a
    /// `ping` is answered; a `pong` clears the keepalive count; a reconnect or
    /// shutdown request closes the connection; undecodable and other frames are
    /// ignored.
    pub fn step(&mut self, input: ClientInput, now: UtcStamp) -> (r: ClientStep)
        ensures
            final(self).source() == old(self).source(),
            match input {
                ClientInput::Command(WsCommand::SendClip(t)) => {
                    &&& r matches ClientStep::Send(WireMessage::Clip { text, source_machine, timestamp })
                    &&& text == t
                    &&& source_machine@ == old(self).source()
                    &&& timestamp@ == rfc3339_text(now.secs(), SecondsDigits::Secs, true)
                    &&& timestamp@.len() >= 20
                    &&& timestamp@.last() == 'Z'
                    &&& timestamp@[timestamp@.len() - 10] == 'T'
                    &&& final(self).unanswered_pings() == old(self).unanswered_pings()
                },
                ClientInput::Command(WsCommand::Reconnect) => r == ClientStep::CloseThenEnd(SessionEnd::Closed),
                ClientInput::Command(WsCommand::Shutdown) => r == ClientStep::CloseThenEnd(SessionEnd::Shutdown),
                ClientInput::CommandsClosed => r == ClientStep::End(SessionEnd::Shutdown),
                ClientInput::Wire(WireMessage::Clip { text, source_machine, timestamp }) => {
                    &&& r == ClientStep::Emit(WsEvent::Clip { text, source_machine, timestamp })
                    &&& final(self).unanswered_pings() == old(self).unanswered_pings()
                },
                ClientInput::Wire(WireMessage::Ping) => {
                    &&& r == ClientStep::Reply(WireMessage::Pong)
                    &&& final(self).unanswered_pings() == old(self).unanswered_pings()
                },
                ClientInput::Wire(WireMessage::Pong) => {
                    &&& r == ClientStep::Nothing
                    &&& final(self).unanswered_pings() == 0
                },
                ClientInput::Unparsable => r == ClientStep::Nothing
                    && final(self).unanswered_pings() == old(self).unanswered_pings(),
                ClientInput::OtherFrame => r == ClientStep::Nothing
                    && final(self).unanswered_pings() == old(self).unanswered_pings(),
                ClientInput::CloseFrame => r == ClientStep::End(SessionEnd::Closed),
                ClientInput::StreamEnded => r == ClientStep::End(SessionEnd::Closed),
                ClientInput::StreamFailed => r == ClientStep::End(SessionEnd::Failed),
                ClientInput::PingTick => {
                    &&& final(self).unanswered_pings() == keepalive_tick(old(self).unanswered_pings()).0
                    &&& keepalive_tick(old(self).unanswered_pings()).1 == TickAction::SendPing
                        ==> r == ClientStep::Send(WireMessage::Ping)
                    &&& keepalive_tick(old(self).unanswered_pings()).1 == TickAction::TimedOut
                        ==> r == ClientStep::CloseThenEnd(SessionEnd::Closed)
                },
            },
    {
        match input {
            ClientInput::Command(cmd) => match cmd {
                WsCommand::SendClip(text) => {
                    let timestamp = format_rfc3339(now, SecondsDigits::Secs, true);
                    ClientStep::Send(WireMessage::Clip {
                        text,
                        source_machine: self.source_machine.clone(),
                        timestamp,
                    })
                },
                WsCommand::Reconnect => ClientStep::CloseThenEnd(SessionEnd::Closed),
                WsCommand::Shutdown => ClientStep::CloseThenEnd(SessionEnd::Shutdown),
            },
            ClientInput::CommandsClosed => ClientStep::End(SessionEnd::Shutdown),
            ClientInput::Wire(msg) => match msg {
                WireMessage::Clip { text, source_machine, timestamp } => {
                    ClientStep::Emit(WsEvent::Clip { text, source_machine, timestamp })
                },
                WireMessage::Ping => ClientStep::Reply(WireMessage::Pong),
                WireMessage::Pong => {
                    self.keepalive.on_pong();
                    ClientStep::Nothing
                },
            },
            ClientInput::Unparsable => ClientStep::Nothing,
            ClientInput::OtherFrame => ClientStep::Nothing,
            ClientInput::CloseFrame => ClientStep::End(SessionEnd::Closed),
            ClientInput::StreamEnded => ClientStep::End(SessionEnd::Closed),
            ClientInput::StreamFailed => ClientStep::End(SessionEnd::Failed),
            ClientInput::PingTick => match self.keepalive.on_tick() {
                TickAction::SendPing => ClientStep::Send(WireMessage::Ping),
                TickAction::TimedOut => ClientStep::CloseThenEnd(SessionEnd::Closed),
            },
        }
    }
}

} // verus!
