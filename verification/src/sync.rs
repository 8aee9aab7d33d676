//! The client's synchronisation engine: which clipboard texts are sent, which
//! received texts are written to the clipboard, and what waits for the
//! connection. The text last seen on (or written to) the local clipboard is
//! remembered, so that a text written from the server does not come back as a
//! local change and loop between the machines.

use vstd::prelude::*;
use crate::clock::{format_local, local_time_text, plain_date_format, LocalStamp};
use crate::text::{decimal, decimal_string};

verus! {

/// The state of the connection to the relay.
#[derive(Debug, Clone, Copy, PartialEq, Eq, Structural)]
pub enum ConnState {
    Connected,
    Reconnecting,
    Disconnected,
}

/// What to do with a local clipboard change.
#[derive(Debug)]
pub enum LocalAction {
    /// Send this text to the relay now.
    Send(String),
    /// Not connected: the text waits for the connection.
    Queued,
    /// The text is the one already known; nothing to do.
    Ignored,
}

/// A local action with its text as a character sequence.
pub enum LocalOutcome {
    Send(Seq<char>),
    Queued,
    Ignored,
}

impl View for LocalAction {
    type V = LocalOutcome;

    open spec fn view(&self) -> LocalOutcome {
        match self {
            LocalAction::Send(t) => LocalOutcome::Send(t@),
            LocalAction::Queued => LocalOutcome::Queued,
            LocalAction::Ignored => LocalOutcome::Ignored,
        }
    }
}

/// An optional text as an optional character sequence.
pub open spec fn opt_text(o: Option<String>) -> Option<Seq<char>> {
    match o {
        Some(s) => Some(s@),
        None => None,
    }
}

/// The part of the engine's state that decides what is sent and written.
pub struct SyncCore {
    /// The name of this machine, as it appears in the clips it sends.
    pub source_machine: Seq<char>,
    /// The text last seen on, or written to, the local clipboard.
    pub last_local_text: Option<Seq<char>>,
    /// The one local text that waits for the connection, if any.
    pub pending: Option<Seq<char>>,
    pub conn: ConnState,
}

/// While connected nothing waits: a waiting text is handed out when the
/// connection comes up.
pub open spec fn core_wf(c: SyncCore) -> bool {
    c.conn == ConnState::Connected ==> c.pending is None
}

/// A local clipboard change to `t`: the known text is ignored; a new one is sent
/// when connected and otherwise takes the single waiting slot. Either way it
/// becomes the known text.
pub open spec fn core_on_local(c: SyncCore, t: Seq<char>) -> (SyncCore, LocalOutcome) {
    if c.last_local_text == Some(t) {
        (c, LocalOutcome::Ignored)
    } else if c.conn == ConnState::Connected {
        (SyncCore { last_local_text: Some(t), ..c }, LocalOutcome::Send(t))
    } else {
        (SyncCore { last_local_text: Some(t), pending: Some(t), ..c }, LocalOutcome::Queued)
    }
}

/// A clip `t` received from machine `src`: written to the clipboard (and made the
/// known text, before the write) unless it comes from this machine or is the
/// known text already.
pub open spec fn core_on_remote(c: SyncCore, t: Seq<char>, src: Seq<char>) -> (SyncCore, Option<Seq<char>>) {
    if src == c.source_machine || c.last_local_text == Some(t) {
        (c, None)
    } else {
        (SyncCore { last_local_text: Some(t), ..c }, Some(t))
    }
}

/// The connection came up: the waiting text, if any, is handed out to be sent.
pub open spec fn core_on_connected(c: SyncCore) -> (SyncCore, Option<Seq<char>>) {
    (SyncCore { conn: ConnState::Connected, pending: None, ..c }, c.pending)
}

/// The connection went down.
pub open spec fn core_on_disconnected(c: SyncCore) -> SyncCore {
    SyncCore { conn: ConnState::Disconnected, ..c }
}

/// A new connection attempt is scheduled.
pub open spec fn core_on_reconnecting(c: SyncCore) -> SyncCore {
    SyncCore { conn: ConnState::Reconnecting, ..c }
}

/// A clip from another machine whose text is not the known text is always
/// written, whatever text is known (or none), and becomes the known text; the
/// rest of the state is untouched.
pub proof fn lemma_foreign_new_clip_is_written(c: SyncCore, t: Seq<char>, src: Seq<char>)
    requires
        src != c.source_machine,
        c.last_local_text != Some(t),
    ensures
        core_on_remote(c, t, src).1 == Some(t),
        core_on_remote(c, t, src).0.last_local_text == Some(t),
        core_on_remote(c, t, src).0.pending == c.pending,
        core_on_remote(c, t, src).0.conn == c.conn,
        core_on_remote(c, t, src).0.source_machine == c.source_machine,
{
}

/// A clip is written only when it comes from another machine and differs from
/// the known text, and then it is written unchanged.
pub proof fn lemma_written_clip_is_foreign_and_new(c: SyncCore, t: Seq<char>, src: Seq<char>)
    ensures
        core_on_remote(c, t, src).1 is Some <==> (src != c.source_machine && c.last_local_text != Some(t)),
        core_on_remote(c, t, src).1 matches Some(w) ==> w == t,
{
}

/// Whatever the state before, once the connection comes up the engine is
/// connected, nothing waits, and what waited is handed out; the known text and
/// the machine name stay.
pub proof fn lemma_connect_makes_connected(c: SyncCore)
    ensures
        core_on_connected(c).0.conn == ConnState::Connected,
        core_on_connected(c).0.pending is None,
        core_on_connected(c).1 == c.pending,
        core_on_connected(c).0.last_local_text == c.last_local_text,
        core_on_connected(c).0.source_machine == c.source_machine,
{
}

/// After an outage (down, a reconnect scheduled, up again), a new local copy is
/// sent at once, not held.
pub proof fn lemma_reconnect_resumes_live_sending(c: SyncCore, t: Seq<char>)
    requires
        core_on_connected(core_on_reconnecting(core_on_disconnected(c))).0.last_local_text != Some(t),
    ensures
        ({
            let up = core_on_connected(core_on_reconnecting(core_on_disconnected(c))).0;
            core_on_local(up, t).1 == LocalOutcome::Send(t)
        }),
{
}

/// Going down and scheduling a reconnect keep the waiting text, and change
/// nothing but the connection state.
pub proof fn lemma_outage_keeps_waiting_text(c: SyncCore)
    ensures
        core_on_disconnected(c).pending == c.pending,
        core_on_reconnecting(c).pending == c.pending,
        core_on_disconnected(c).last_local_text == c.last_local_text,
        core_on_reconnecting(c).last_local_text == c.last_local_text,
        core_on_disconnected(c).conn == ConnState::Disconnected,
        core_on_reconnecting(c).conn == ConnState::Reconnecting,
{
}

/// A copy made during an outage survives failed reconnect attempts: however many
/// times the connection fails and a reconnect is scheduled again, the copy is
/// sent when the connection comes back.
pub proof fn lemma_copy_survives_failed_attempts(c: SyncCore, t: Seq<char>, failures: nat)
    requires
        c.conn != ConnState::Connected,
        c.last_local_text != Some(t),
    ensures
        core_on_connected(retry_n(core_on_local(c, t).0, failures)).1 == Some(t),
    decreases failures,
{
    if failures > 0 {
        lemma_retry_keeps(core_on_local(c, t).0, failures);
    }
}

/// `n` rounds of a failed attempt: the connection goes down and a reconnect is
/// scheduled.
pub open spec fn retry_n(c: SyncCore, n: nat) -> SyncCore
    decreases n,
{
    if n == 0 {
        c
    } else {
        core_on_reconnecting(core_on_disconnected(retry_n(c, (n - 1) as nat)))
    }
}

proof fn lemma_retry_keeps(c: SyncCore, n: nat)
    ensures
        retry_n(c, n).pending == c.pending,
    decreases n,
{
    if n > 0 {
        lemma_retry_keeps(c, (n - 1) as nat);
    }
}

/// The label shown for a connection state.
pub open spec fn conn_label_text(s: ConnState) -> Seq<char> {
    match s {
        ConnState::Connected => "Bağlı"@,
        ConnState::Reconnecting => "Bağlanıyor"@,
        ConnState::Disconnected => "Kopuk"@,
    }
}

/// Every step of the engine keeps `core_wf`: while connected, no text waits.
pub proof fn lemma_steps_keep_wf(c: SyncCore, t: Seq<char>, src: Seq<char>)
    requires
        core_wf(c),
    ensures
        core_wf(core_on_local(c, t).0),
        core_wf(core_on_remote(c, t, src).0),
        core_wf(core_on_connected(c).0),
        core_wf(core_on_disconnected(c)),
        core_wf(core_on_reconnecting(c)),
{
}

/// No echo: once a clip from another machine has been handled, the clipboard
/// change that carries the same text (such as the notification that follows
/// writing it) is ignored and leaves the state as it was. This is what keeps a
/// text from bouncing between the machines.
pub proof fn lemma_written_clip_is_not_echoed(c: SyncCore, t: Seq<char>, src: Seq<char>)
    requires
        src != c.source_machine,
    ensures
        ({
            let c1 = core_on_remote(c, t, src).0;
            core_on_local(c1, t) == (c1, LocalOutcome::Ignored)
        }),
{
}

/// Clips that carry this machine's own name are never written to the clipboard,
/// and change nothing.
pub proof fn lemma_own_clips_are_dropped(c: SyncCore, t: Seq<char>)
    ensures
        core_on_remote(c, t, c.source_machine) == (c, None::<Seq<char>>),
{
}

/// Copying the same text twice sends (or queues) it once: the second change is
/// ignored.
pub proof fn lemma_repeated_copy_is_ignored(c: SyncCore, t: Seq<char>)
    ensures
        ({
            let c1 = core_on_local(c, t).0;
            core_on_local(c1, t) == (c1, LocalOutcome::Ignored)
        }),
{
}

/// A single waiting slot, latest text wins: of two different texts copied while
/// the connection is down, the second is the one sent when it comes up.
pub proof fn lemma_latest_copy_waits(c: SyncCore, a: Seq<char>, b: Seq<char>)
    requires
        c.conn != ConnState::Connected,
        a != b,
    ensures
        core_on_connected(core_on_local(core_on_local(c, a).0, b).0).1 == Some(b),
{
}

/// A waiting text is handed out once: right after a connection has come up,
/// another "connected" has nothing to send.
pub proof fn lemma_waiting_text_sent_once(c: SyncCore)
    ensures
        core_on_connected(core_on_connected(c).0).1 is None,
{
}

/// A change copied while connected is sent at once and nothing is left waiting.
pub proof fn lemma_connected_copy_is_sent(c: SyncCore, t: Seq<char>)
    requires
        core_wf(c),
        c.conn == ConnState::Connected,
        c.last_local_text != Some(t),
    ensures
        core_on_local(c, t).1 == LocalOutcome::Send(t),
        core_on_local(c, t).0.pending is None,
{
}

/// The last-action text after a local clipboard change with outcome `o`.
pub open spec fn local_action_text(o: LocalOutcome, prev: Seq<char>) -> Seq<char> {
    match o {
        LocalOutcome::Send(_) => "pano değişti → gönderildi"@,
        LocalOutcome::Queued => "pano değişti → bağlantı yok, bekletildi"@,
        LocalOutcome::Ignored => prev,
    }
}

/// The last-action text after a clip from `src` was (or was not) written.
pub open spec fn remote_action_text(written: bool, src: Seq<char>, prev: Seq<char>) -> Seq<char> {
    if written { src + " → panoya yazıldı"@ } else { prev }
}

/// The last-action text after the connection came up, with or without a waiting
/// text to send.
pub open spec fn connected_action_text(flushed: bool) -> Seq<char> {
    if flushed { "bağlantı kuruldu → bekleyen gönderildi"@ } else { "bağlantı kuruldu"@ }
}

/// The last-action text after the connection went down.
pub open spec fn disconnected_action_text() -> Seq<char> {
    "bağlantı koptu"@
}

/// The last-action text when the next attempt follows in `in_ms` milliseconds.
pub open spec fn reconnecting_action_text(in_ms: u64) -> Seq<char> {
    decimal(in_ms as nat) + "ms sonra yeniden denenecek"@
}

/// The time of the last success: `now` when something was sent or written, else
/// unchanged.
pub open spec fn success_after(prev: Option<LocalStamp>, next: Option<LocalStamp>, happened: bool, now: LocalStamp) -> bool {
    if happened { next == Some(now) } else { next == prev }
}

/// The strftime format of the time shown for the last success.
pub const STATUS_TIME_FORMAT: &'static str = "%Y-%m-%d %H:%M:%S";

/// The status format uses plain specifiers only, so `chrono` always writes it.
pub proof fn lemma_status_format_is_plain()
    ensures
        plain_date_format(STATUS_TIME_FORMAT@),
{
    reveal_strlit("%Y-%m-%d %H:%M:%S");
    let f = STATUS_TIME_FORMAT@;
    assert(f.len() == 17);
    assert forall|i: int| 0 <= i < f.len() && #[trigger] f[i] == '%' implies i + 1 < f.len() && {
        let c = f[i + 1];
        c == 'Y' || c == 'm' || c == 'd' || c == 'H' || c == 'M' || c == 'S'
    } by {
        assert(i == 0 || i == 3 || i == 6 || i == 9 || i == 12 || i == 15);
    }
}

/// The synchronisation engine of one client.
pub struct SyncEngine {
    source_machine: String,
    last_local_text: Option<String>,
    pending: Option<String>,
    conn: ConnState,
    last_success: Option<LocalStamp>,
    last_action: String,
}

impl SyncEngine {
    #[verifier::type_invariant]
    spec fn well_formed(self) -> bool {
        &&& core_wf(self.sync_state())
    }

    /// The state that decides what is sent and written.
    pub closed spec fn sync_state(self) -> SyncCore {
        SyncCore {
            source_machine: self.source_machine@,
            last_local_text: opt_text(self.last_local_text),
            pending: opt_text(self.pending),
            conn: self.conn,
        }
    }

    /// When a text was last sent or written, if ever.
    pub closed spec fn last_success(self) -> Option<LocalStamp> {
        self.last_success
    }

    /// The description of the last thing that happened.
    pub closed spec fn last_action_text(self) -> Seq<char> {
        self.last_action@
    }

    /// A new engine for machine `source_machine`; the clipboard's text at start-up,
    /// if any, is the known text, so that it is not sent merely because the
    /// program started.
    pub fn new(source_machine: String, initial_local: Option<String>) -> (r: Self)
        ensures
            r.sync_state() == (SyncCore {
                source_machine: source_machine@,
                last_local_text: opt_text(initial_local),
                pending: None,
                conn: ConnState::Disconnected,
            }),
            r.last_success() is None,
            r.last_action_text() == "başlatıldı"@,
    {
        SyncEngine {
            source_machine,
            last_local_text: initial_local,
            pending: None,
            conn: ConnState::Disconnected,
            last_success: None,
            last_action: String::from_str("başlatıldı"),
        }
    }

    fn is_known_text(&self, text: &String) -> (r: bool)
        ensures
            r == (opt_text(self.last_local_text) == Some(text@)),
    {
        match &self.last_local_text {
            Some(l) => *l == *text,
            None => false,
        }
    }

    /// The local clipboard now holds `text` (a clipboard-update notification).
    pub fn on_local_clipboard(&mut self, text: String, now: LocalStamp) -> (r: LocalAction)
        ensures
            (final(self).sync_state(), r@) == core_on_local(old(self).sync_state(), text@),
            final(self).last_action_text() == local_action_text(r@, old(self).last_action_text()),
            success_after(old(self).last_success(), final(self).last_success(), r@ is Send, now),
    {
        proof { use_type_invariant(&*self); }
        if self.is_known_text(&text) {
            return LocalAction::Ignored;
        }
        match self.conn {
            ConnState::Connected => {
                self.last_local_text = Some(text.clone());
                self.last_action = String::from_str("pano değişti → gönderildi");
                self.last_success = Some(now);
                LocalAction::Send(text)
            },
            _ => {
                self.last_local_text = Some(text.clone());
                self.pending = Some(text);
                self.last_action = String::from_str("pano değişti → bağlantı yok, bekletildi");
                LocalAction::Queued
            },
        }
    }

    /// A clip `text` from machine `source_machine` arrived from the relay. Returns
    /// the text to write to the clipboard, or `None` to write nothing.
    pub fn on_remote_clip(&mut self, text: String, source_machine: String, now: LocalStamp) -> (r: Option<String>)
        ensures
            (final(self).sync_state(), opt_text(r)) == core_on_remote(old(self).sync_state(), text@, source_machine@),
            final(self).last_action_text() == remote_action_text(r is Some, source_machine@, old(self).last_action_text()),
            success_after(old(self).last_success(), final(self).last_success(), r is Some, now),
    {
        proof { use_type_invariant(&*self); }
        if source_machine == self.source_machine {
            return None;
        }
        if self.is_known_text(&text) {
            return None;
        }
        self.last_local_text = Some(text.clone());
        let mut action = source_machine;
        action.append(" → panoya yazıldı");
        self.last_action = action;
        self.last_success = Some(now);
        Some(text)
    }

    /// The connection to the relay came up. Returns the waiting text, if any, to be
    /// sent now.
    pub fn on_connected(&mut self, now: LocalStamp) -> (r: Option<String>)
        ensures
            (final(self).sync_state(), opt_text(r)) == core_on_connected(old(self).sync_state()),
            final(self).last_action_text() == connected_action_text(r is Some),
            success_after(old(self).last_success(), final(self).last_success(), r is Some, now),
    {
        proof { use_type_invariant(&*self); }
        let waiting = match &self.pending {
            Some(t) => Some(t.clone()),
            None => None,
        };
        self.pending = None;
        self.conn = ConnState::Connected;
        match waiting {
            Some(text) => {
                self.last_action = String::from_str("bağlantı kuruldu → bekleyen gönderildi");
                self.last_success = Some(now);
                Some(text)
            },
            None => {
                self.last_action = String::from_str("bağlantı kuruldu");
                None
            },
        }
    }

    /// The connection went down.
    pub fn on_disconnected(&mut self)
        ensures
            final(self).sync_state() == core_on_disconnected(old(self).sync_state()),
            final(self).last_success() == old(self).last_success(),
            final(self).last_action_text() == disconnected_action_text(),
    {
        proof { use_type_invariant(&*self); }
        self.conn = ConnState::Disconnected;
        self.last_action = String::from_str("bağlantı koptu");
    }

    /// A new connection attempt follows in `in_ms` milliseconds.
    pub fn on_reconnecting(&mut self, in_ms: u64)
        ensures
            final(self).sync_state() == core_on_reconnecting(old(self).sync_state()),
            final(self).last_success() == old(self).last_success(),
            final(self).last_action_text() == reconnecting_action_text(in_ms),
    {
        proof { use_type_invariant(&*self); }
        self.conn = ConnState::Reconnecting;
        let mut action = decimal_string(in_ms);
        action.append("ms sonra yeniden denenecek");
        self.last_action = action;
    }

    /// The label of the connection state: `Bağlı`, `Bağlanıyor` or `Kopuk`.
    pub fn conn_label(&self) -> (r: &'static str)
        ensures
            r@ == conn_label_text(self.sync_state().conn),
    {
        match self.conn {
            ConnState::Connected => "Bağlı",
            ConnState::Reconnecting => "Bağlanıyor",
            ConnState::Disconnected => "Kopuk",
        }
    }

    /// When a text was last sent or written, as local time in `STATUS_TIME_FORMAT`
    /// (`YYYY-MM-DD HH:MM:SS`), or `-`.
    pub fn last_success_str(&self) -> (r: String)
        ensures
            match self.last_success() {
                Some(s) => local_time_text(s.utc_secs(), s.offset_secs(), STATUS_TIME_FORMAT@) == Some(r@),
                None => r@ == "-"@,
            },
    {
        match self.last_success {
            Some(s) => {
                proof { lemma_status_format_is_plain(); }
                match format_local(s, STATUS_TIME_FORMAT) {
                    Some(t) => t,
                    None => String::from_str("-"),
                }
            },
            None => String::from_str("-"),
        }
    }

    /// The description of the last thing that happened.
    pub fn last_action(&self) -> (r: &str)
        ensures
            r@ == self.last_action_text(),
    {
        self.last_action.as_str()
    }
}

} // verus!
