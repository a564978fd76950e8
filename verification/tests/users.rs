use live_relay::user::{AuthConfig, User};

#[test]
fn loaded_users_are_authorized() {
    let auth = AuthConfig::new([User::new(10), User::new(20)].to_vec());
    assert!(auth.has_permission(10));
    assert!(auth.has_permission(20));
    assert!(!auth.has_permission(30));
}

#[test]
fn create_authorizes_once() {
    let mut auth = AuthConfig::new(Vec::new());
    assert!(!auth.has_permission(5));
    assert!(auth.create(5));
    assert!(auth.has_permission(5));
    assert!(!auth.create(5));
    assert!(auth.has_permission(5));
}

#[test]
fn room_is_keyed_by_chat_identity() {
    let mut auth = AuthConfig::new(Vec::new());
    auth.create(77);
    assert_eq!(auth.room(77).index(), 77);
    assert_eq!(live_relay::config::RoomInfo::new(3).index(), 3);
}

#[test]
fn path_config_defaults_to_bare_commands() {
    let p = live_relay::config::PathConfig { streamlink: None, ffmpeg: None };
    assert_eq!(p.streamlink(), "streamlink");
    assert_eq!(p.ffmpeg(), "ffmpeg");
    let q = live_relay::config::PathConfig {
        streamlink: Some("/usr/bin/streamlink".to_string()),
        ffmpeg: Some("/usr/bin/ffmpeg".to_string()),
    };
    assert_eq!(q.streamlink(), "/usr/bin/streamlink");
    assert_eq!(q.ffmpeg(), "/usr/bin/ffmpeg");
}
