//! The tray client's reactions to what happens in its event loop, the text of
//! its status window and the pixels of its tray icon. Showing windows, the tray
//! and the clipboard itself are outside the library.

use vstd::prelude::*;
use crate::client::{WsCommand, WsEvent};
use crate::clock::{local_time_text, LocalStamp};
use crate::config::AppConfig;
use crate::sync::{
    conn_label_text, connected_action_text, core_on_connected, core_on_disconnected, core_on_local,
    core_on_reconnecting, core_on_remote, disconnected_action_text, local_action_text,
    reconnecting_action_text, remote_action_text, success_after, LocalAction, SyncEngine,
    STATUS_TIME_FORMAT,
};

verus! {

/// What reaches the event loop.
#[derive(Debug)]
pub enum UiEvent {
    /// "Durum Bilgisi" in the menu, or a double click on the tray icon.
    StatusRequested,
    /// "Şimdi Yeniden Bağlan" in the menu.
    ReconnectRequested,
    /// "Çıkış" in the menu.
    QuitRequested,
    /// The local clipboard changed; it now holds this text.
    LocalClipboard(String),
    /// A report of the connection task.
    Ws(WsEvent),
}

/// What the event loop does in answer.
#[derive(Debug)]
pub enum UiAction {
    Nothing,
    /// Leave the event loop.
    Exit,
    /// Show the status window.
    ShowStatus,
    /// Pass this request to the connection task.
    Command(WsCommand),
    /// Write this text to the clipboard.
    WriteClipboard(String),
}

/// Routes an event of the tray client through the synchronisation engine; `now`
/// is the local clock's reading at the event.
pub fn handle_ui_event(engine: &mut SyncEngine, ev: UiEvent, now: LocalStamp) -> (r: UiAction)
    ensures
        match ev {
            UiEvent::StatusRequested => r == UiAction::ShowStatus && *final(engine) == *old(engine),
            UiEvent::ReconnectRequested => r == UiAction::Command(WsCommand::Reconnect)
                && *final(engine) == *old(engine),
            UiEvent::QuitRequested => r == UiAction::Exit && *final(engine) == *old(engine),
            UiEvent::LocalClipboard(t) => {
                let (next, outcome) = core_on_local(old(engine).sync_state(), t@);
                &&& final(engine).sync_state() == next
                &&& final(engine).last_action_text() == local_action_text(outcome, old(engine).last_action_text())
                &&& success_after(old(engine).last_success(), final(engine).last_success(), outcome is Send, now)
                &&& outcome is Send ==> (r matches UiAction::Command(WsCommand::SendClip(s)) && s@ == t@)
                &&& !(outcome is Send) ==> r == UiAction::Nothing
            },
            UiEvent::Ws(WsEvent::Connected) => {
                let (next, waiting) = core_on_connected(old(engine).sync_state());
                &&& final(engine).sync_state() == next
                &&& final(engine).last_action_text() == connected_action_text(waiting is Some)
                &&& success_after(old(engine).last_success(), final(engine).last_success(), waiting is Some, now)
                &&& match waiting {
                    Some(w) => r matches UiAction::Command(WsCommand::SendClip(s)) && s@ == w,
                    None => r == UiAction::Nothing,
                }
            },
            UiEvent::Ws(WsEvent::Disconnected) => r == UiAction::Nothing
                && final(engine).sync_state() == core_on_disconnected(old(engine).sync_state())
                && final(engine).last_action_text() == disconnected_action_text()
                && final(engine).last_success() == old(engine).last_success(),
            UiEvent::Ws(WsEvent::Reconnecting { in_ms }) => r == UiAction::Nothing
                && final(engine).sync_state() == core_on_reconnecting(old(engine).sync_state())
                && final(engine).last_action_text() == reconnecting_action_text(in_ms)
                && final(engine).last_success() == old(engine).last_success(),
            UiEvent::Ws(WsEvent::Clip { text, source_machine, .. }) => {
                let (next, write) = core_on_remote(old(engine).sync_state(), text@, source_machine@);
                &&& final(engine).sync_state() == next
                &&& final(engine).last_action_text() == remote_action_text(write is Some, source_machine@, old(engine).last_action_text())
                &&& success_after(old(engine).last_success(), final(engine).last_success(), write is Some, now)
                &&& write is Some ==> (r matches UiAction::WriteClipboard(s) && s@ == text@)
                &&& write is None ==> r == UiAction::Nothing
            },
        },
{
    match ev {
        UiEvent::StatusRequested => UiAction::ShowStatus,
        UiEvent::ReconnectRequested => UiAction::Command(WsCommand::Reconnect),
        UiEvent::QuitRequested => UiAction::Exit,
        UiEvent::LocalClipboard(text) => match engine.on_local_clipboard(text, now) {
            LocalAction::Send(t) => UiAction::Command(WsCommand::SendClip(t)),
            LocalAction::Queued => UiAction::Nothing,
            LocalAction::Ignored => UiAction::Nothing,
        },
        UiEvent::Ws(event) => match event {
            WsEvent::Connected => match engine.on_connected(now) {
                Some(t) => UiAction::Command(WsCommand::SendClip(t)),
                None => UiAction::Nothing,
            },
            WsEvent::Disconnected => {
                engine.on_disconnected();
                UiAction::Nothing
            },
            WsEvent::Reconnecting { in_ms } => {
                engine.on_reconnecting(in_ms);
                UiAction::Nothing
            },
            WsEvent::Clip { text, source_machine, timestamp: _ } => {
                match engine.on_remote_clip(text, source_machine, now) {
                    Some(t) => UiAction::WriteClipboard(t),
                    None => UiAction::Nothing,
                }
            },
        },
    }
}

/// The text of `last_success_str` for an engine.
pub open spec fn last_success_text(engine: SyncEngine) -> Seq<char> {
    match engine.last_success() {
        Some(s) => local_time_text(s.utc_secs(), s.offset_secs(), STATUS_TIME_FORMAT@).unwrap(),
        None => "-"@,
    }
}

/// The body of the status window: machine, server, room, connection state, time
/// of the last success and the last action, one per line.
pub open spec fn status_text(machine: Seq<char>, cfg: AppConfig, engine: SyncEngine) -> Seq<char> {
    "Makine          : "@ + machine
        + "\nSunucu          : "@ + cfg.server_url@
        + "\nOda             : "@ + cfg.room_id@
        + "\nBağlantı        : "@ + conn_label_text(engine.sync_state().conn)
        + "\nSon başarı      : "@ + last_success_text(engine)
        + "\nSon işlem       : "@ + engine.last_action_text()
}

/// Writes the body of the status window.
pub fn status_body(machine: &str, cfg: &AppConfig, engine: &SyncEngine) -> (r: String)
    ensures
        r@ == status_text(machine@, *cfg, *engine),
{
    let mut s = String::from_str("Makine          : ");
    s.append(machine);
    s.append("\nSunucu          : ");
    s.append(cfg.server_url.as_str());
    s.append("\nOda             : ");
    s.append(cfg.room_id.as_str());
    s.append("\nBağlantı        : ");
    s.append(engine.conn_label());
    s.append("\nSon başarı      : ");
    let success = engine.last_success_str();
    s.append(success.as_str());
    s.append("\nSon işlem       : ");
    s.append(engine.last_action());
    s
}

/// The width and height of the tray icon, in pixels.
pub const ICON_SIZE: u32 = 32;

/// Whether pixel (`x`, `y`) of the icon is painted: it lies on the ring between
/// radii 9.5 and 14.5 around the centre (15.5, 15.5), outside the opening of the
/// "C" on the right (where |dy| < 0.85 dx). Distances are doubled to stay in
/// integers: 2·9.5 = 19 and 2·14.5 = 29.
pub open spec fn icon_pixel_on(x: int, y: int) -> bool {
    let dx = 2 * x - 31;
    let dy = 2 * y - 31;
    let d2 = dx * dx + dy * dy;
    let abs_dy = if dy < 0 { -dy } else { dy };
    &&& 19 * 19 <= d2 <= 29 * 29
    &&& !(dx > 0 && abs_dy * 20 < dx * 17)
}

/// Byte `k` (red, green, blue, alpha) of the icon's colour, Material Blue 500.
pub open spec fn icon_blue(k: int) -> u8 {
    if k == 0 { 0x21 } else if k == 1 { 0x96 } else if k == 2 { 0xf3 } else { 0xff }
}

/// Byte `i` of the icon's RGBA image, row by row.
pub open spec fn icon_byte(i: int) -> u8 {
    let p = i / 4;
    if icon_pixel_on(p % 32, p / 32) { icon_blue(i % 4) } else { 0 }
}

proof fn lemma_icon_index(x: int, y: int, k: int)
    requires
        0 <= x < 32,
        0 <= y < 32,
        0 <= k < 4,
    ensures
        (4 * (32 * y + x) + k) / 4 == 32 * y + x,
        (4 * (32 * y + x) + k) % 4 == k,
        (32 * y + x) % 32 == x,
        (32 * y + x) / 32 == y,
{
    assert((4 * (32 * y + x) + k) / 4 == 32 * y + x) by (nonlinear_arith)
        requires 0 <= k < 4, 0 <= x < 32, 0 <= y < 32;
    assert((4 * (32 * y + x) + k) % 4 == k) by (nonlinear_arith)
        requires 0 <= k < 4, 0 <= x < 32, 0 <= y < 32;
    assert((32 * y + x) % 32 == x) by (nonlinear_arith)
        requires 0 <= x < 32, 0 <= y < 32;
    assert((32 * y + x) / 32 == y) by (nonlinear_arith)
        requires 0 <= x < 32, 0 <= y < 32;
}

fn pixel_on(x: i32, y: i32) -> (r: bool)
    requires
        0 <= x < 32,
        0 <= y < 32,
    ensures
        r == icon_pixel_on(x as int, y as int),
{
    let dx = 2 * x - 31;
    let dy = 2 * y - 31;
    assert(dx * dx <= 961) by (nonlinear_arith)
        requires -31 <= dx <= 31;
    assert(dy * dy <= 961) by (nonlinear_arith)
        requires -31 <= dy <= 31;
    assert(dx * dx >= 0) by (nonlinear_arith);
    assert(dy * dy >= 0) by (nonlinear_arith);
    let d2 = dx * dx + dy * dy;
    let abs_dy = if dy < 0 { -dy } else { dy };
    let in_ring = 19 * 19 <= d2 && d2 <= 29 * 29;
    let in_opening = dx > 0 && abs_dy * 20 < dx * 17;
    in_ring && !in_opening
}

/// The RGBA pixels (32 × 32, four bytes each, row by row) of the tray icon: a blue
/// "C" on a transparent background.
pub fn icon_rgba() -> (r: Vec<u8>)
    ensures
        r@.len() == 4 * 32 * 32,
        forall|i: int| 0 <= i < r@.len() ==> r@[i] == #[trigger] icon_byte(i),
{
    let mut v: Vec<u8> = Vec::new();
    let mut y: i32 = 0;
    while y < 32
        invariant
            0 <= y <= 32,
            v@.len() == 4 * (32 * y),
            forall|i: int| 0 <= i < v@.len() ==> v@[i] == #[trigger] icon_byte(i),
        decreases 32 - y,
    {
        let mut x: i32 = 0;
        while x < 32
            invariant
                0 <= y < 32,
                0 <= x <= 32,
                v@.len() == 4 * (32 * y + x),
                forall|i: int| 0 <= i < v@.len() ==> v@[i] == #[trigger] icon_byte(i),
            decreases 32 - x,
        {
            let on = pixel_on(x, y);
            proof {
                lemma_icon_index(x as int, y as int, 0);
                lemma_icon_index(x as int, y as int, 1);
                lemma_icon_index(x as int, y as int, 2);
                lemma_icon_index(x as int, y as int, 3);
            }
            let base = 4 * (32 * y + x);
            assert(icon_byte(base as int) == if on { 0x21u8 } else { 0u8 });
            assert(icon_byte(base + 1) == if on { 0x96u8 } else { 0u8 });
            assert(icon_byte(base + 2) == if on { 0xf3u8 } else { 0u8 });
            assert(icon_byte(base + 3) == if on { 0xffu8 } else { 0u8 });
            if on {
                v.push(0x21);
                v.push(0x96);
                v.push(0xf3);
                v.push(0xff);
            } else {
                v.push(0);
                v.push(0);
                v.push(0);
                v.push(0);
            }
            x = x + 1;
        }
        y = y + 1;
    }
    v
}

} // verus!
