use clipsync::room::{ClientHandle, Rooms};
use clipsync::server::{authorize, AppState, AuthDecision, DropReason, ServerFrame, ServerSession, ServerStep, WsQuery};
use clipsync::server_config::{AuthMap, RoomConfig, ServerConfig};
use clipsync::wire::{clip_within_limit, frame_within_limit, WireMessage, MAX_CLIP_BYTES};

fn clip(text: &str, from: &str) -> WireMessage {
    WireMessage::Clip {
        text: text.to_string(),
        source_machine: from.to_string(),
        timestamp: "2026-05-28T12:00:00Z".to_string(),
    }
}

fn server_cfg() -> ServerConfig {
    ServerConfig {
        bind: "127.0.0.1:8080".to_string(),
        rooms: vec![
            RoomConfig { id: "okan-home".to_string(), token: "aaaa".to_string() },
            RoomConfig { id: "ali-evi".to_string(), token: "bbbb".to_string() },
            RoomConfig { id: "okan-home".to_string(), token: "cccc".to_string() },
        ],
    }
}

fn q(room: &str, token: &str) -> WsQuery {
    WsQuery { room: room.to_string(), token: token.to_string() }
}

#[test]
fn auth_map_keeps_the_last_entry() {
    let m = server_cfg().auth_map();
    assert_eq!(m.token_for(&"okan-home".to_string()).map(|s| s.as_str()), Some("cccc"));
    assert_eq!(m.token_for(&"ali-evi".to_string()).map(|s| s.as_str()), Some("bbbb"));
    assert_eq!(m.token_for(&"yok".to_string()), None);
}

#[test]
fn authorize_decisions() {
    let m = server_cfg().auth_map();
    assert_eq!(authorize(&m, &q("okan-home", "cccc")), AuthDecision::Accept);
    assert_eq!(authorize(&m, &q("okan-home", "aaaa")), AuthDecision::BadToken);
    assert_eq!(authorize(&m, &q("ali-evi", "cccc")), AuthDecision::BadToken);
    assert_eq!(authorize(&m, &q("nowhere", "cccc")), AuthDecision::UnknownRoom);
    assert_eq!(AuthDecision::UnknownRoom.refusal(), Some("bilinmeyen oda"));
    assert_eq!(AuthDecision::BadToken.refusal(), Some("geçersiz token"));
    assert_eq!(AuthDecision::Accept.refusal(), None);
}

#[test]
fn empty_auth_map_knows_no_room() {
    let m = AuthMap::new();
    assert_eq!(authorize(&m, &q("r", "t")), AuthDecision::UnknownRoom);
}

#[test]
fn join_returns_last_clip() {
    let mut rooms = Rooms::new();
    assert!(rooms.join("r", ClientHandle { id: 1 }).is_none());
    assert!(rooms.join("r", ClientHandle { id: 2 }).is_none());
    let to = rooms.broadcast("r", 1, &clip("hello", "PC-A"));
    assert_eq!(to, vec![ClientHandle { id: 2 }]);
    match rooms.join("r", ClientHandle { id: 3 }) {
        Some(WireMessage::Clip { text, .. }) => assert_eq!(text, "hello"),
        other => panic!("unexpected {:?}", other),
    }
    assert!(rooms.join("other", ClientHandle { id: 4 }).is_none());
}

#[test]
fn broadcast_skips_sender_and_unknown_rooms() {
    let mut rooms = Rooms::new();
    for id in 1..=4 {
        rooms.join("r", ClientHandle { id });
    }
    let to = rooms.broadcast("r", 3, &WireMessage::Ping);
    assert_eq!(to, vec![ClientHandle { id: 1 }, ClientHandle { id: 2 }, ClientHandle { id: 4 }]);
    assert!(rooms.join("r", ClientHandle { id: 5 }).is_none());
    assert!(rooms.broadcast("missing", 1, &clip("x", "A")).is_empty());
    assert!(rooms.join("missing", ClientHandle { id: 6 }).is_none());
}

#[test]
fn leave_keeps_the_last_clip() {
    let mut rooms = Rooms::new();
    rooms.join("r", ClientHandle { id: 1 });
    rooms.join("r", ClientHandle { id: 2 });
    rooms.broadcast("r", 1, &clip("kept", "A"));
    rooms.leave("r", 1);
    rooms.leave("r", 2);
    rooms.leave("nowhere", 2);
    match rooms.join("r", ClientHandle { id: 3 }) {
        Some(WireMessage::Clip { text, .. }) => assert_eq!(text, "kept"),
        other => panic!("unexpected {:?}", other),
    }
    assert!(rooms.broadcast("r", 3, &clip("y", "A")).is_empty());
}

#[test]
fn session_relays_clips_to_others() {
    let mut state = AppState::new(&server_cfg());
    let (mut a, last_a) = ServerSession::open(&mut state.rooms, "okan-home".to_string(), 1);
    assert!(last_a.is_none());
    let (_b, _) = ServerSession::open(&mut state.rooms, "okan-home".to_string(), 2);
    match a.on_frame(&mut state.rooms, ServerFrame::Wire(clip("copy", "PC-A"))) {
        ServerStep::Broadcast { to, msg } => {
            assert_eq!(to, vec![ClientHandle { id: 2 }]);
            assert!(matches!(msg, WireMessage::Clip { ref text, .. } if text == "copy"));
        }
        other => panic!("unexpected {:?}", other),
    }
    let (c, last_c) = ServerSession::open(&mut state.rooms, "okan-home".to_string(), 3);
    assert!(matches!(last_c, Some(WireMessage::Clip { ref text, .. }) if text == "copy"));
    c.close(&mut state.rooms);
    a.close(&mut state.rooms);
    match state.rooms.broadcast("okan-home", 9, &WireMessage::Pong)[..] {
        [ClientHandle { id: 2 }] => {}
        ref other => panic!("unexpected {:?}", other),
    }
}

#[test]
fn session_handles_other_frames() {
    let mut rooms = Rooms::new();
    let (mut s, _) = ServerSession::open(&mut rooms, "r".to_string(), 1);
    assert!(matches!(s.on_frame(&mut rooms, ServerFrame::Wire(WireMessage::Ping)), ServerStep::Queue(WireMessage::Pong)));
    assert!(matches!(s.on_frame(&mut rooms, ServerFrame::Wire(WireMessage::Pong)), ServerStep::Nothing));
    assert!(matches!(s.on_frame(&mut rooms, ServerFrame::Unparsable), ServerStep::Dropped(DropReason::BadJson)));
    assert!(matches!(s.on_frame(&mut rooms, ServerFrame::Binary), ServerStep::Dropped(DropReason::Binary)));
    match s.on_frame(&mut rooms, ServerFrame::WsPing(vec![1, 2, 3])) {
        ServerStep::WsPong(p) => assert_eq!(p, vec![1, 2, 3]),
        other => panic!("unexpected {:?}", other),
    }
    assert!(matches!(s.on_frame(&mut rooms, ServerFrame::WsPong), ServerStep::Nothing));
    assert!(matches!(s.on_frame(&mut rooms, ServerFrame::Close), ServerStep::Stop));
    assert!(matches!(s.on_frame(&mut rooms, ServerFrame::Failed), ServerStep::Stop));
    assert!(matches!(s.on_frame(&mut rooms, ServerFrame::Ended), ServerStep::Stop));
}

#[test]
fn oversized_clip_is_dropped_and_not_cached() {
    let mut rooms = Rooms::new();
    let (mut s, _) = ServerSession::open(&mut rooms, "r".to_string(), 1);
    let big = "x".repeat(MAX_CLIP_BYTES + 1);
    assert!(matches!(s.on_frame(&mut rooms, ServerFrame::Wire(clip(&big, "A"))), ServerStep::Dropped(DropReason::ClipTooLarge)));
    assert!(rooms.join("r", ClientHandle { id: 2 }).is_none());
    let exact = "x".repeat(MAX_CLIP_BYTES);
    assert!(matches!(s.on_frame(&mut rooms, ServerFrame::Wire(clip(&exact, "A"))), ServerStep::Broadcast { .. }));
}

#[test]
fn silent_client_is_stopped() {
    let mut rooms = Rooms::new();
    let (mut s, _) = ServerSession::open(&mut rooms, "r".to_string(), 1);
    assert!(matches!(s.on_frame(&mut rooms, ServerFrame::Tick), ServerStep::Queue(WireMessage::Ping)));
    assert!(matches!(s.on_frame(&mut rooms, ServerFrame::Wire(WireMessage::Pong)), ServerStep::Nothing));
    assert!(matches!(s.on_frame(&mut rooms, ServerFrame::Tick), ServerStep::Queue(WireMessage::Ping)));
    assert!(matches!(s.on_frame(&mut rooms, ServerFrame::Tick), ServerStep::Stop));
}

#[test]
fn size_limits_count_utf8_bytes() {
    assert_eq!(MAX_CLIP_BYTES, 1024 * 1024);
    assert!(frame_within_limit(&"a".repeat(MAX_CLIP_BYTES)));
    assert!(!frame_within_limit(&"a".repeat(MAX_CLIP_BYTES + 1)));
    let half = MAX_CLIP_BYTES / 2;
    assert!(frame_within_limit(&"ş".repeat(half)));
    assert!(!frame_within_limit(&"ş".repeat(half + 1)));
    assert!(clip_within_limit(&WireMessage::Ping));
    assert!(!clip_within_limit(&clip(&"ğ".repeat(half + 1), "A")));
}

#[test]
fn wire_clone_is_equal() {
    let m = clip("t", "A");
    match (m.clone(), m) {
        (WireMessage::Clip { text: a, source_machine: b, timestamp: c }, WireMessage::Clip { text: x, source_machine: y, timestamp: z }) => {
            assert_eq!((a, b, c), (x, y, z));
        }
        _ => panic!("clone changed the variant"),
    }
}
