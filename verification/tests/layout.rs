use std::time::Instant;

use notiser::layout::{evaluate_predicate, Predicate};
use notiser::notification::{Notification, NotificationAction, NotificationHints, Urgency};

fn test_notification() -> Notification {
    Notification {
        id: 1,
        app_name: "test".into(),
        app_icon: String::new(),
        summary: "Hello".into(),
        body: "World".into(),
        actions: vec![],
        hints: NotificationHints::default(),
        expire_timeout: -1,
        created_at: Instant::now(),
        replaces_id: None,
    }
}

#[test]
fn test_predicate_has_body() {
    let notification = test_notification();
    assert!(evaluate_predicate(&Predicate::Has("body".into()), &notification));
    assert!(evaluate_predicate(&Predicate::Has("summary".into()), &notification));
    assert!(evaluate_predicate(&Predicate::Has("app_name".into()), &notification));
    assert!(!evaluate_predicate(&Predicate::Has("app_icon".into()), &notification));
}

#[test]
fn test_predicate_no_body() {
    let mut notification = test_notification();
    notification.body = String::new();
    assert!(!evaluate_predicate(&Predicate::Has("body".into()), &notification));
    assert!(evaluate_predicate(&Predicate::Has("summary".into()), &notification));
}

#[test]
fn predicate_has_actions_and_unknown_field() {
    let mut notification = test_notification();
    assert!(!evaluate_predicate(&Predicate::Has("actions".into()), &notification));
    assert!(!evaluate_predicate(&Predicate::Has("whatever".into()), &notification));
    notification.actions.push(NotificationAction { key: "default".into(), label: "Open".into() });
    assert!(evaluate_predicate(&Predicate::Has("actions".into()), &notification));
    notification.app_icon = "firefox".into();
    assert!(evaluate_predicate(&Predicate::Has("icon".into()), &notification));
}

#[test]
fn predicate_has_hint() {
    let mut notification = test_notification();
    assert!(!evaluate_predicate(&Predicate::HasHint("value".into()), &notification));
    notification.hints.value = Some(40);
    assert!(evaluate_predicate(&Predicate::HasHint("value".into()), &notification));
    assert!(!evaluate_predicate(&Predicate::HasHint("x-custom".into()), &notification));
    notification.hints.extra.insert("x-custom".into(), "1".into());
    assert!(evaluate_predicate(&Predicate::HasHint("x-custom".into()), &notification));
    assert!(!evaluate_predicate(&Predicate::HasHint("urgency".into()), &notification));
    notification.hints.urgency = Some(Urgency::Low);
    assert!(evaluate_predicate(&Predicate::HasHint("urgency".into()), &notification));
}

#[test]
fn predicate_urgency_defaults_to_normal() {
    let mut notification = test_notification();
    assert!(evaluate_predicate(&Predicate::Urgency(Urgency::Normal), &notification));
    assert!(!evaluate_predicate(&Predicate::Urgency(Urgency::Critical), &notification));
    notification.hints.urgency = Some(Urgency::Critical);
    assert!(evaluate_predicate(&Predicate::Urgency(Urgency::Critical), &notification));
}

#[test]
fn predicate_app_pattern() {
    let mut notification = test_notification();
    notification.app_name = "Mozilla Firefox".into();
    assert!(evaluate_predicate(&Predicate::App("Firefox".into()), &notification));
    assert!(evaluate_predicate(&Predicate::App("".into()), &notification));
    assert!(!evaluate_predicate(&Predicate::App("Spotify".into()), &notification));
    notification.hints.desktop_entry = Some("com.spotify.Client".into());
    assert!(evaluate_predicate(&Predicate::App("spotify".into()), &notification));
}

#[test]
fn predicate_combinators() {
    let notification = test_notification();
    let has_body = Predicate::Has("body".into());
    let has_icon = Predicate::Has("app_icon".into());
    assert!(evaluate_predicate(&Predicate::Any(vec![has_icon.clone(), has_body.clone()]), &notification));
    assert!(!evaluate_predicate(&Predicate::All(vec![has_icon.clone(), has_body.clone()]), &notification));
    assert!(evaluate_predicate(&Predicate::Not(Box::new(has_icon.clone())), &notification));
    assert!(!evaluate_predicate(&Predicate::Any(vec![]), &notification));
    assert!(evaluate_predicate(&Predicate::All(vec![]), &notification));
    let copy = Predicate::All(vec![has_body, Predicate::Not(Box::new(has_icon))]).duplicate();
    assert!(evaluate_predicate(&copy, &notification));
}
