use clipsync::client::{WsCommand, WsEvent};
use clipsync::clock::LocalStamp;
use clipsync::config::AppConfig;
use clipsync::sync::SyncEngine;
use clipsync::ui::{handle_ui_event, icon_rgba, status_body, UiAction, UiEvent};

fn now() -> LocalStamp {
    LocalStamp::new(1_780_000_000, 3 * 3600).unwrap()
}

fn cfg() -> AppConfig {
    AppConfig {
        server_url: "wss://clip.example.com/ws".to_string(),
        room_id: "okan-home".to_string(),
        token: "secret".to_string(),
    }
}

#[test]
fn menu_events() {
    let mut e = SyncEngine::new("PC-A".to_string(), None);
    assert!(matches!(handle_ui_event(&mut e, UiEvent::StatusRequested, now()), UiAction::ShowStatus));
    assert!(matches!(handle_ui_event(&mut e, UiEvent::ReconnectRequested, now()), UiAction::Command(WsCommand::Reconnect)));
    assert!(matches!(handle_ui_event(&mut e, UiEvent::QuitRequested, now()), UiAction::Exit));
}

#[test]
fn copy_then_connect_sends_pending() {
    let mut e = SyncEngine::new("PC-A".to_string(), None);
    assert!(matches!(handle_ui_event(&mut e, UiEvent::LocalClipboard("a".to_string()), now()), UiAction::Nothing));
    match handle_ui_event(&mut e, UiEvent::Ws(WsEvent::Connected), now()) {
        UiAction::Command(WsCommand::SendClip(t)) => assert_eq!(t, "a"),
        other => panic!("unexpected {:?}", other),
    }
    match handle_ui_event(&mut e, UiEvent::LocalClipboard("b".to_string()), now()) {
        UiAction::Command(WsCommand::SendClip(t)) => assert_eq!(t, "b"),
        other => panic!("unexpected {:?}", other),
    }
}

#[test]
fn remote_clip_written_and_echo_swallowed() {
    let mut e = SyncEngine::new("PC-A".to_string(), None);
    handle_ui_event(&mut e, UiEvent::Ws(WsEvent::Connected), now());
    let clip = WsEvent::Clip {
        text: "remote".to_string(),
        source_machine: "PC-B".to_string(),
        timestamp: "2026-05-28T12:00:00Z".to_string(),
    };
    match handle_ui_event(&mut e, UiEvent::Ws(clip), now()) {
        UiAction::WriteClipboard(t) => assert_eq!(t, "remote"),
        other => panic!("unexpected {:?}", other),
    }
    assert!(matches!(handle_ui_event(&mut e, UiEvent::LocalClipboard("remote".to_string()), now()), UiAction::Nothing));
}

#[test]
fn reconnecting_and_disconnected_update_status() {
    let mut e = SyncEngine::new("PC-A".to_string(), None);
    assert!(matches!(handle_ui_event(&mut e, UiEvent::Ws(WsEvent::Reconnecting { in_ms: 1000 }), now()), UiAction::Nothing));
    assert_eq!(e.conn_label(), "Bağlanıyor");
    assert!(matches!(handle_ui_event(&mut e, UiEvent::Ws(WsEvent::Disconnected), now()), UiAction::Nothing));
    assert_eq!(e.conn_label(), "Kopuk");
}

#[test]
fn status_body_lists_everything() {
    let e = SyncEngine::new("PC-A".to_string(), None);
    let body = status_body("PC-A", &cfg(), &e);
    assert_eq!(
        body,
        "Makine          : PC-A\n\
         Sunucu          : wss://clip.example.com/ws\n\
         Oda             : okan-home\n\
         Bağlantı        : Kopuk\n\
         Son başarı      : -\n\
         Son işlem       : başlatıldı"
    );
}

fn float_icon() -> Vec<u8> {
    const W: u32 = 32;
    const CENTER: f32 = 15.5;
    const OUTER: f32 = 14.5;
    const INNER: f32 = 9.5;
    let blue = [0x21u8, 0x96, 0xf3, 0xff];
    let mut rgba = vec![0u8; (W * W * 4) as usize];
    for y in 0..W {
        for x in 0..W {
            let dx = x as f32 - CENTER;
            let dy = y as f32 - CENTER;
            let d = (dx * dx + dy * dy).sqrt();
            let in_ring = d >= INNER && d <= OUTER;
            let in_opening = dx > 0.0 && dy.abs() < dx * 0.85;
            if in_ring && !in_opening {
                let idx = ((y * W + x) * 4) as usize;
                rgba[idx..idx + 4].copy_from_slice(&blue);
            }
        }
    }
    rgba
}

#[test]
fn icon_matches_the_float_drawing() {
    let icon = icon_rgba();
    assert_eq!(icon.len(), 4096);
    assert_eq!(icon, float_icon());
    assert!(icon.chunks(4).any(|p| p == [0x21, 0x96, 0xf3, 0xff]));
    assert!(icon.chunks(4).any(|p| p == [0, 0, 0, 0]));
}

#[test]
fn status_body_shows_last_success_time() {
    let mut e = SyncEngine::new("PC-A".to_string(), None);
    handle_ui_event(&mut e, UiEvent::Ws(WsEvent::Connected), now());
    handle_ui_event(&mut e, UiEvent::LocalClipboard("x".to_string()), now());
    let body = status_body("PC-A", &cfg(), &e);
    assert!(body.ends_with("Bağlantı        : Bağlı\nSon başarı      : 2026-05-28 23:26:40\nSon işlem       : pano değişti → gönderildi"), "{}", body);
}
