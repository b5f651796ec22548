use std::time::Instant;

use notiser::action::OwnedHintValue;
use notiser::hints::{parse_actions, parse_hints};
use notiser::notification::{CloseReason, Notification, NotificationHints, Urgency};
use notiser::strmap::StringMap;
use notiser::text::{same_text, text_contains};

#[test]
fn urgency_from_byte() {
    assert_eq!(Urgency::from_byte(0), Urgency::Low);
    assert_eq!(Urgency::from_byte(1), Urgency::Normal);
    assert_eq!(Urgency::from_byte(2), Urgency::Critical);
    assert_eq!(Urgency::from_byte(3), Urgency::Normal);
    assert_eq!(Urgency::from_byte(255), Urgency::Normal);
    assert_eq!(Urgency::default(), Urgency::Normal);
}

#[test]
fn close_reason_codes() {
    assert_eq!(CloseReason::Expired.code(), 1);
    assert_eq!(CloseReason::Dismissed.code(), 2);
    assert_eq!(CloseReason::Closed.code(), 3);
    assert_eq!(CloseReason::Unknown.code(), 4);
}

#[test]
fn notification_urgency_from_hint() {
    let mut n = Notification {
        id: 7,
        app_name: "a".into(),
        app_icon: String::new(),
        summary: "s".into(),
        body: String::new(),
        actions: vec![],
        hints: NotificationHints::default(),
        expire_timeout: -1,
        created_at: Instant::now(),
        replaces_id: None,
    };
    assert_eq!(n.urgency(), Urgency::Normal);
    n.hints.urgency = Some(Urgency::Low);
    assert_eq!(n.urgency(), Urgency::Low);
}

#[test]
fn string_map_later_entry_wins() {
    let mut m = StringMap::new();
    assert!(!m.contains_key("k"));
    assert!(m.get("k").is_none());
    m.insert("k".into(), "1".into());
    m.insert("j".into(), "2".into());
    m.insert("k".into(), "3".into());
    assert!(m.contains_key("k"));
    assert_eq!(m.get("k").map(|s| s.as_str()), Some("3"));
    assert_eq!(m.get("j").map(|s| s.as_str()), Some("2"));
}

#[test]
fn text_helpers() {
    assert!(same_text("abc", "abc"));
    assert!(!same_text("abc", "abd"));
    assert!(text_contains("notification daemon", "daemon"));
    assert!(text_contains("über", "be"));
    assert!(!text_contains("short", "longer text"));
    assert!(text_contains("x", ""));
}

#[test]
fn parse_hints_known_and_extra() {
    let hints = vec![
        ("urgency".to_string(), OwnedHintValue::Byte(2)),
        ("category".to_string(), OwnedHintValue::String("email.arrived".into())),
        ("desktop-entry".to_string(), OwnedHintValue::String("thunderbird".into())),
        ("image-path".to_string(), OwnedHintValue::String("/tmp/a.png".into())),
        ("sound-file".to_string(), OwnedHintValue::String("/tmp/a.ogg".into())),
        ("sound-name".to_string(), OwnedHintValue::String("message-new-email".into())),
        ("suppress-sound".to_string(), OwnedHintValue::Bool(true)),
        ("transient".to_string(), OwnedHintValue::Bool(true)),
        ("resident".to_string(), OwnedHintValue::Bool(true)),
        ("action-icons".to_string(), OwnedHintValue::Bool(true)),
        ("value".to_string(), OwnedHintValue::Int32(42)),
        ("x-kde-origin".to_string(), OwnedHintValue::String("kmail".into())),
    ];
    let h = parse_hints(&hints);
    assert_eq!(h.urgency, Some(Urgency::Critical));
    assert_eq!(h.category.as_deref(), Some("email.arrived"));
    assert_eq!(h.desktop_entry.as_deref(), Some("thunderbird"));
    assert_eq!(h.image_path.as_deref(), Some("/tmp/a.png"));
    assert_eq!(h.sound_file.as_deref(), Some("/tmp/a.ogg"));
    assert_eq!(h.sound_name.as_deref(), Some("message-new-email"));
    assert!(h.suppress_sound && h.transient && h.resident && h.action_icons);
    assert_eq!(h.value, Some(42));
    assert_eq!(h.extra.get("x-kde-origin").map(|s| s.as_str()), Some("kmail"));
    assert!(!h.extra.contains_key("category"));
}

#[test]
fn parse_hints_wrong_types_ignored() {
    let hints = vec![
        ("urgency".to_string(), OwnedHintValue::Int32(2)),
        ("value".to_string(), OwnedHintValue::Byte(3)),
        ("transient".to_string(), OwnedHintValue::String("yes".into())),
        (
            "image-data".to_string(),
            OwnedHintValue::ImageData {
                width: 1,
                height: 1,
                rowstride: 4,
                has_alpha: true,
                bits_per_sample: 8,
                channels: 4,
                data: vec![0, 0, 0, 0],
            },
        ),
    ];
    let h = parse_hints(&hints);
    assert_eq!(h.urgency, None);
    assert_eq!(h.value, None);
    assert!(!h.transient);
    assert!(h.image_data.is_none());
    // A string under a known non-string key is kept as an extra hint.
    assert_eq!(h.extra.get("transient").map(|s| s.as_str()), Some("yes"));
}

#[test]
fn parse_actions_pairs() {
    let actions: Vec<String> = vec!["default".into(), "Open".into(), "reply".into(), "Reply".into(), "dangling".into()];
    let parsed = parse_actions(&actions);
    assert_eq!(parsed.len(), 2);
    assert_eq!(parsed[0].key, "default");
    assert_eq!(parsed[0].label, "Open");
    assert_eq!(parsed[1].key, "reply");
    assert_eq!(parsed[1].label, "Reply");
    assert!(parse_actions(&[]).is_empty());
}
