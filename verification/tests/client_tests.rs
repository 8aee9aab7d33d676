use clipsync::client::{
    session_url, AfterSession, Backoff, ClientInput, ClientSession, ClientStep, SessionEnd, WsCommand,
    WsConfig, WsError, WsEvent,
};
use clipsync::clock::UtcStamp;
use clipsync::keepalive::{Keepalive, TickAction};
use clipsync::wire::WireMessage;

fn now() -> UtcStamp {
    UtcStamp::new(1_780_000_000).unwrap()
}

fn ws_cfg(url: &str, room: &str, token: &str) -> WsConfig {
    WsConfig {
        url: url.to_string(),
        room_id: room.to_string(),
        token: token.to_string(),
        source_machine: "PC-A".to_string(),
    }
}

#[test]
fn session_url_appends_encoded_query() {
    let u = session_url(&ws_cfg("wss://clip.example.com/ws", "okan-home", "abc")).unwrap();
    assert_eq!(u, "wss://clip.example.com/ws?room=okan-home&token=abc");
    let u = session_url(&ws_cfg("ws://127.0.0.1:8080/ws", "a b", "t&k=1")).unwrap();
    assert_eq!(u, "ws://127.0.0.1:8080/ws?room=a+b&token=t%26k%3D1");
}

#[test]
fn session_url_rejects_unparsable_url() {
    assert_eq!(session_url(&ws_cfg("not a url", "r", "t")), Err(WsError::BadServerUrl));
}

#[test]
fn backoff_doubles_to_thirty_seconds() {
    let mut b = Backoff::new();
    let mut waits = Vec::new();
    for _ in 0..8 {
        match b.after_session(SessionEnd::Failed, false) {
            AfterSession::Retry { wait_ms } => waits.push(wait_ms),
            AfterSession::Stop => panic!("stopped"),
        }
    }
    assert_eq!(waits, vec![1000, 2000, 4000, 8000, 16000, 30000, 30000, 30000]);
}

#[test]
fn backoff_resets_after_a_connected_session() {
    let mut b = Backoff::new();
    b.after_session(SessionEnd::Failed, false);
    b.after_session(SessionEnd::Closed, false);
    assert_eq!(b.after_session(SessionEnd::Closed, false), AfterSession::Retry { wait_ms: 4000 });
    assert_eq!(b.after_session(SessionEnd::Closed, true), AfterSession::Retry { wait_ms: 1000 });
    assert_eq!(b.after_session(SessionEnd::Failed, false), AfterSession::Retry { wait_ms: 2000 });
}

#[test]
fn backoff_stops_on_shutdown() {
    let mut b = Backoff::new();
    assert_eq!(b.after_session(SessionEnd::Shutdown, true), AfterSession::Stop);
}

#[test]
fn send_clip_carries_machine_and_utc_time() {
    let mut s = ClientSession::new("PC-A".to_string());
    match s.step(ClientInput::Command(WsCommand::SendClip("hello".to_string())), now()) {
        ClientStep::Send(WireMessage::Clip { text, source_machine, timestamp }) => {
            assert_eq!(text, "hello");
            assert_eq!(source_machine, "PC-A");
            assert_eq!(timestamp, "2026-05-28T20:26:40Z");
        }
        other => panic!("unexpected {:?}", other),
    }
}

#[test]
fn received_clip_is_reported() {
    let mut s = ClientSession::new("PC-A".to_string());
    let clip = WireMessage::Clip {
        text: "t".to_string(),
        source_machine: "PC-B".to_string(),
        timestamp: "2026-05-28T12:00:00Z".to_string(),
    };
    match s.step(ClientInput::Wire(clip), now()) {
        ClientStep::Emit(WsEvent::Clip { text, source_machine, timestamp }) => {
            assert_eq!(text, "t");
            assert_eq!(source_machine, "PC-B");
            assert_eq!(timestamp, "2026-05-28T12:00:00Z");
        }
        other => panic!("unexpected {:?}", other),
    }
}

#[test]
fn ping_is_answered_and_unknown_ignored() {
    let mut s = ClientSession::new("PC-A".to_string());
    assert!(matches!(s.step(ClientInput::Wire(WireMessage::Ping), now()), ClientStep::Reply(WireMessage::Pong)));
    assert!(matches!(s.step(ClientInput::Unparsable, now()), ClientStep::Nothing));
    assert!(matches!(s.step(ClientInput::OtherFrame, now()), ClientStep::Nothing));
}

#[test]
fn commands_and_stream_end_the_session() {
    let mut s = ClientSession::new("PC-A".to_string());
    assert!(matches!(s.step(ClientInput::Command(WsCommand::Reconnect), now()), ClientStep::CloseThenEnd(SessionEnd::Closed)));
    assert!(matches!(s.step(ClientInput::Command(WsCommand::Shutdown), now()), ClientStep::CloseThenEnd(SessionEnd::Shutdown)));
    assert!(matches!(s.step(ClientInput::CommandsClosed, now()), ClientStep::End(SessionEnd::Shutdown)));
    assert!(matches!(s.step(ClientInput::CloseFrame, now()), ClientStep::End(SessionEnd::Closed)));
    assert!(matches!(s.step(ClientInput::StreamEnded, now()), ClientStep::End(SessionEnd::Closed)));
    assert!(matches!(s.step(ClientInput::StreamFailed, now()), ClientStep::End(SessionEnd::Failed)));
}

#[test]
fn silent_server_times_out_after_sixty_seconds() {
    let mut s = ClientSession::new("PC-A".to_string());
    assert!(matches!(s.step(ClientInput::PingTick, now()), ClientStep::Send(WireMessage::Ping)));
    assert!(matches!(s.step(ClientInput::PingTick, now()), ClientStep::CloseThenEnd(SessionEnd::Closed)));
}

#[test]
fn pong_keeps_the_session_alive() {
    let mut s = ClientSession::new("PC-A".to_string());
    for _ in 0..5 {
        assert!(matches!(s.step(ClientInput::PingTick, now()), ClientStep::Send(WireMessage::Ping)));
        assert!(matches!(s.step(ClientInput::Wire(WireMessage::Pong), now()), ClientStep::Nothing));
    }
}

#[test]
fn keepalive_counts_unanswered_pings() {
    let mut k = Keepalive::new();
    assert_eq!(k.on_tick(), TickAction::SendPing);
    assert_eq!(k.on_tick(), TickAction::TimedOut);
    assert_eq!(k.on_tick(), TickAction::TimedOut);
    k.on_pong();
    assert_eq!(k.on_tick(), TickAction::SendPing);
}

#[test]
fn timestamps_before_the_epoch_are_written() {
    let mut s = ClientSession::new("PC-A".to_string());
    match s.step(ClientInput::Command(WsCommand::SendClip("t".to_string())), UtcStamp::new(-1).unwrap()) {
        ClientStep::Send(WireMessage::Clip { timestamp, .. }) => assert_eq!(timestamp, "1969-12-31T23:59:59Z"),
        other => panic!("unexpected {:?}", other),
    }
    assert!(UtcStamp::new(i64::MIN).is_none());
}

#[test]
fn session_url_refuses_oversized_texts() {
    let huge = "x".repeat(clipsync::client::URL_INPUT_LIMIT);
    assert_eq!(session_url(&ws_cfg("wss://h/ws", &huge, "t")), Err(WsError::BadServerUrl));
    assert!(session_url(&ws_cfg("wss://h/ws#frag", "r", "t")).is_ok());
}
