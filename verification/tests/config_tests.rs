use clipsync::config::{classify_loaded, AppConfig, ConfigError, FirstRun};
use clipsync::text::{decimal_string, is_blank, is_white_space, starts_with, strip_bom};

fn cfg(url: &str, room: &str, token: &str) -> AppConfig {
    AppConfig { server_url: url.to_string(), room_id: room.to_string(), token: token.to_string() }
}

#[test]
fn template_holds_the_example_values() {
    let t = AppConfig::template();
    assert_eq!(t.server_url, "wss://clip.ornek.com/ws");
    assert_eq!(t.room_id, "okan-home");
    assert_eq!(t.token, "uzun-rastgele-string-buraya");
}

#[test]
fn template_is_recognised_as_template() {
    assert!(AppConfig::template().is_template());
}

#[test]
fn template_url_or_token_alone_marks_template() {
    let t = AppConfig::template();
    assert!(cfg(&t.server_url, "ev", "secret").is_template());
    assert!(cfg("wss://my.host/ws", "ev", &t.token).is_template());
    assert!(!cfg("wss://my.host/ws", &t.room_id, "secret").is_template());
}

#[test]
fn validate_accepts_ws_and_wss() {
    assert!(cfg("wss://clip.example.com/ws", "okan-home", "abc").validate().is_ok());
    assert!(cfg("ws://127.0.0.1:8080/ws", "r", "t").validate().is_ok());
}

#[test]
fn validate_rejects_other_schemes() {
    let e = cfg("https://clip.example.com/ws", "r", "t").validate().unwrap_err();
    match &e {
        ConfigError::BadServerUrl(u) => assert_eq!(u, "https://clip.example.com/ws"),
        other => panic!("unexpected {:?}", other),
    }
    assert_eq!(e.message(), "ServerUrl `ws://` veya `wss://` ile başlamalı: https://clip.example.com/ws");
    assert!(matches!(cfg("WSS://x", "r", "t").validate(), Err(ConfigError::BadServerUrl(_))));
    assert!(matches!(cfg("", "r", "t").validate(), Err(ConfigError::BadServerUrl(_))));
}

#[test]
fn validate_rejects_blank_room_and_token_in_order() {
    let e = cfg("wss://h/ws", " \t", "").validate().unwrap_err();
    assert!(matches!(e, ConfigError::EmptyRoomId));
    assert_eq!(e.message(), "RoomId boş olamaz");
    let e = cfg("wss://h/ws", "room", "\u{3000}\n").validate().unwrap_err();
    assert!(matches!(e, ConfigError::EmptyToken));
    assert_eq!(e.message(), "Token boş olamaz");
    let e = cfg("ftp://h", "", "").validate().unwrap_err();
    assert!(matches!(e, ConfigError::BadServerUrl(_)));
}

#[test]
fn classify_template_needs_edit() {
    match classify_loaded(AppConfig::template(), "C:\\app\\config.json".to_string()) {
        Ok(FirstRun::NeedsEdit(p)) => assert_eq!(p, "C:\\app\\config.json"),
        other => panic!("unexpected {:?}", other),
    }
}

#[test]
fn classify_valid_is_loaded_and_invalid_is_error() {
    match classify_loaded(cfg("wss://a/ws", "r", "t"), "p".to_string()) {
        Ok(FirstRun::Loaded(c)) => {
            assert_eq!(c.server_url, "wss://a/ws");
            assert_eq!(c.room_id, "r");
            assert_eq!(c.token, "t");
        }
        other => panic!("unexpected {:?}", other),
    }
    assert!(matches!(classify_loaded(cfg("wss://a/ws", "r", " "), "p".to_string()), Err(ConfigError::EmptyToken)));
}

#[test]
fn strip_bom_removes_one_leading_mark() {
    assert_eq!(strip_bom("\u{FEFF}{\"a\":1}"), "{\"a\":1}");
    assert_eq!(strip_bom("\u{FEFF}\u{FEFF}x"), "\u{FEFF}x");
    assert_eq!(strip_bom("x\u{FEFF}"), "x\u{FEFF}");
    assert_eq!(strip_bom(""), "");
}

#[test]
fn white_space_matches_std() {
    for u in 0u32..=0x10FFFF {
        if let Some(c) = char::from_u32(u) {
            assert_eq!(is_white_space(c), c.is_whitespace(), "U+{:04X}", u);
        }
    }
}

#[test]
fn blank_is_trim_empty() {
    for s in ["", " ", "\t\r\n", "\u{A0}\u{2003}", " a ", "x", "\u{200B}"] {
        assert_eq!(is_blank(s), s.trim().is_empty(), "{:?}", s);
    }
}

#[test]
fn prefix_check() {
    assert!(starts_with("wss://x", "wss://"));
    assert!(starts_with("ws://", "ws://"));
    assert!(!starts_with("ws:/", "ws://"));
    assert!(starts_with("ğüş", "ğü"));
    assert!(starts_with("abc", ""));
}

#[test]
fn decimal_matches_to_string() {
    for n in [0u64, 7, 10, 99, 1000, 30000, 1234567890, u64::MAX] {
        assert_eq!(decimal_string(n), n.to_string());
    }
}
