use notiser::action::{DbusSignal, OwnedHintValue, ServerInfo};
use notiser::daemon::{
    capabilities, expire_aged, expire_notifications, handle_close, handle_notify, is_expired, list_summaries,
    surface_height,
};
use notiser::manager::NotificationManager;
use notiser::notification::{CloseReason, Urgency};

fn notify(m: &mut NotificationManager, summary: &str, expire_timeout: i32) -> u32 {
    handle_notify(
        m,
        "app".into(),
        0,
        String::new(),
        summary.into(),
        "body".into(),
        &["default".to_string(), "Open".to_string()],
        &[("urgency".to_string(), OwnedHintValue::Byte(0))],
        expire_timeout,
    )
}

#[test]
fn notify_stores_parsed_notification() {
    let mut m = NotificationManager::new();
    let a = notify(&mut m, "first", -1);
    let b = handle_notify(&mut m, "mail".into(), 1, "mail-icon".into(), "second".into(), String::new(), &[], &[], 0);
    assert_eq!((a, b), (1, 2));
    let n = m.get(1).unwrap();
    assert_eq!(n.summary, "first");
    assert_eq!(n.urgency(), Urgency::Low);
    assert_eq!(n.actions.len(), 1);
    assert_eq!(n.actions[0].key, "default");
    assert_eq!(n.replaces_id, None);
    let n = m.get(2).unwrap();
    assert_eq!(n.replaces_id, Some(1));
    assert_eq!(n.app_icon, "mail-icon");
    assert_eq!(m.active_ids(), vec![1, 2]);
}

#[test]
fn close_signals_only_for_active() {
    let mut m = NotificationManager::new();
    let id = notify(&mut m, "x", -1);
    match handle_close(&mut m, id) {
        Some(DbusSignal::NotificationClosed { id: sid, reason }) => {
            assert_eq!(sid, id);
            assert_eq!(reason, CloseReason::Closed);
        }
        other => panic!("unexpected {other:?}"),
    }
    assert!(handle_close(&mut m, id).is_none());
    assert_eq!(m.active_count(), 0);
}

#[test]
fn list_summaries_one_per_notification() {
    let mut m = NotificationManager::new();
    notify(&mut m, "a", -1);
    notify(&mut m, "b", -1);
    let mut s = list_summaries(&m);
    s.sort_by_key(|x| x.id);
    assert_eq!(s.len(), 2);
    assert_eq!(s[0].summary, "a");
    assert_eq!(s[1].summary, "b");
    assert_eq!(s[0].urgency, "Low");
}

#[test]
fn expiry_rules() {
    assert!(!is_expired(0, 5000, u128::MAX / 2));
    assert!(is_expired(100, 5000, 100_000_000));
    assert!(!is_expired(100, 5000, 99_999_999));
    assert!(is_expired(-1, 5000, 5_000_000_000));
    assert!(!is_expired(-1, 5000, 4_999_999_999));
    let mut m = NotificationManager::new();
    let never = notify(&mut m, "sticky", 0);
    let soon = notify(&mut m, "default", -1);
    let signals = expire_notifications(&mut m, 0);
    assert_eq!(signals.len(), 1);
    match &signals[0] {
        DbusSignal::NotificationClosed { id, reason } => {
            assert_eq!(*id, soon);
            assert_eq!(*reason, CloseReason::Expired);
        }
        other => panic!("unexpected {other:?}"),
    }
    assert_eq!(m.active_ids(), vec![never]);
}

#[test]
fn expiry_by_given_ages() {
    let mut m = NotificationManager::new();
    let short = notify(&mut m, "short", 100);
    let long = notify(&mut m, "long", 10_000);
    let never = notify(&mut m, "sticky", 0);
    let ages = [
        (short, 150_000_000u128),
        (long, 150_000_000u128),
        (never, u128::MAX / 2),
        (999, u128::MAX / 2),
        (short, 200_000_000u128),
    ];
    let signals = expire_aged(&mut m, 5000, &ages);
    assert_eq!(signals.len(), 1);
    match &signals[0] {
        DbusSignal::NotificationClosed { id, reason } => {
            assert_eq!(*id, short);
            assert_eq!(*reason, CloseReason::Expired);
        }
        other => panic!("unexpected {other:?}"),
    }
    assert_eq!(m.active_ids(), vec![long, never]);
    let later = expire_aged(&mut m, 5000, &[(long, 10_000_000_000u128)]);
    assert_eq!(later.len(), 1);
    assert_eq!(m.active_ids(), vec![never]);
}

#[test]
fn surface_height_formula() {
    assert_eq!(surface_height(0), 0);
    assert_eq!(surface_height(1), 96);
    assert_eq!(surface_height(3), 16 + 240 + 16);
}

#[test]
fn server_information_and_capabilities() {
    let info = ServerInfo::default();
    assert_eq!(info.name, "notiser");
    assert_eq!(info.vendor, "notiser");
    assert_eq!(info.spec_version, "1.2");
    let caps = capabilities();
    assert_eq!(caps, vec!["body", "body-markup", "body-hyperlinks", "actions", "icon-static", "persistence"]);
}
