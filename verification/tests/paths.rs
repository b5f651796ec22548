use notiser::notification::NotificationHints;
use notiser::paths::{
    config_dir, config_path, join_path, sound_allowed, sound_search_order, split_on_colons,
    xdg_sound_candidates,
};

#[test]
fn join_path_like_pathbuf_push() {
    assert_eq!(join_path("/a", "b"), "/a/b");
    assert_eq!(join_path("/a/", "b"), "/a/b");
    assert_eq!(join_path("", "b"), "b");
    assert_eq!(join_path("/a", "/b"), "/b");
    assert_eq!(join_path("a", ""), "a/");
}

#[test]
fn config_path_from_environment() {
    assert_eq!(config_path(Some("/x"), Some("/h")), "/x/notiser/init.lua");
    assert_eq!(config_path(None, Some("/home/u")), "/home/u/.config/notiser/init.lua");
    assert_eq!(config_path(None, None), "./.config/notiser/init.lua");
    assert_eq!(config_dir(Some("/cfg/"), None), "/cfg/notiser");
}

#[test]
fn split_keeps_empty_pieces() {
    assert_eq!(split_on_colons("a::b"), vec!["a", "", "b"]);
    assert_eq!(split_on_colons(""), vec![""]);
    assert_eq!(split_on_colons(":"), vec!["", ""]);
    assert_eq!(split_on_colons("/usr/share"), vec!["/usr/share"]);
}

#[test]
fn themed_sound_candidates_in_order() {
    assert_eq!(
        xdg_sound_candidates("/usr/share:/opt", "bell"),
        vec![
            "/usr/share/sounds/freedesktop/stereo/bell.oga",
            "/usr/share/sounds/freedesktop/stereo/bell.ogg",
            "/usr/share/sounds/freedesktop/stereo/bell.wav",
            "/opt/sounds/freedesktop/stereo/bell.oga",
            "/opt/sounds/freedesktop/stereo/bell.ogg",
            "/opt/sounds/freedesktop/stereo/bell.wav",
        ]
    );
}

#[test]
fn sound_file_hint_comes_alone() {
    let mut hints = NotificationHints::default();
    hints.sound_file = Some("/tmp/ping.wav".into());
    hints.sound_name = Some("bell".into());
    assert_eq!(
        sound_search_order(&hints, Some("alarm"), "/usr/share"),
        vec![("/tmp/ping.wav".to_string(), false)]
    );
}

#[test]
fn sound_name_then_urgency_sound() {
    let mut hints = NotificationHints::default();
    hints.sound_name = Some("bell".into());
    let order = sound_search_order(&hints, Some("alarm"), "/d");
    let expected: Vec<(String, bool)> = vec![
        ("/d/sounds/freedesktop/stereo/bell.oga".into(), true),
        ("/d/sounds/freedesktop/stereo/bell.ogg".into(), true),
        ("/d/sounds/freedesktop/stereo/bell.wav".into(), true),
        ("alarm".into(), true),
        ("/d/sounds/freedesktop/stereo/alarm.oga".into(), true),
        ("/d/sounds/freedesktop/stereo/alarm.ogg".into(), true),
        ("/d/sounds/freedesktop/stereo/alarm.wav".into(), true),
    ];
    assert_eq!(order, expected);
    assert!(sound_search_order(&NotificationHints::default(), None, "/d").is_empty());
}

#[test]
fn sound_cooldown_and_suppression() {
    assert!(sound_allowed(false, None, 500));
    assert!(!sound_allowed(true, None, 500));
    assert!(!sound_allowed(false, Some(499_999_999), 500));
    assert!(sound_allowed(false, Some(500_000_000), 500));
}
