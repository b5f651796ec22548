use std::time::Instant;

use notiser::history::NotificationHistory;
use notiser::notification::{Notification, NotificationHints, Urgency};

fn note(id: u32, urgency: Option<Urgency>) -> Notification {
    let mut hints = NotificationHints::default();
    hints.urgency = urgency;
    Notification {
        id,
        app_name: "mail".into(),
        app_icon: String::new(),
        summary: format!("message {id}"),
        body: "body".into(),
        actions: vec![],
        hints,
        expire_timeout: -1,
        created_at: Instant::now(),
        replaces_id: None,
    }
}

#[test]
fn history_newest_first_and_bounded() {
    let mut h = NotificationHistory::new(3);
    for id in 1..=5 {
        h.push(&note(id, None));
    }
    let recent = h.recent(10);
    let ids: Vec<u32> = recent.iter().map(|s| s.id).collect();
    assert_eq!(ids, vec![5, 4, 3]);
    let two: Vec<u32> = h.recent(2).iter().map(|s| s.id).collect();
    assert_eq!(two, vec![5, 4]);
    assert!(h.recent(0).is_empty());
}

#[test]
fn history_summary_fields() {
    let mut h = NotificationHistory::new(10);
    h.push(&note(1, Some(Urgency::Critical)));
    h.push(&note(2, None));
    let recent = h.recent(2);
    assert_eq!(recent[0].urgency, "Normal");
    assert_eq!(recent[1].urgency, "Critical");
    assert_eq!(recent[1].summary, "message 1");
    assert_eq!(recent[1].app_name, "mail");
    assert_eq!(recent[1].body, "body");
    assert!(recent[1].timestamp < 5);
}

#[test]
fn history_zero_limit_keeps_newest() {
    let mut h = NotificationHistory::new(0);
    h.push(&note(1, None));
    h.push(&note(2, None));
    let ids: Vec<u32> = h.recent(5).iter().map(|s| s.id).collect();
    assert_eq!(ids, vec![2]);
    h.clear();
    assert!(h.recent(5).is_empty());
}

#[test]
fn cleared_history_refills_to_its_limit() {
    let mut h = NotificationHistory::new(2);
    h.push(&note(1, None));
    h.clear();
    assert!(h.recent(usize::MAX).is_empty());
    for id in 10..13 {
        h.push(&note(id, None));
    }
    let ids: Vec<u32> = h.recent(usize::MAX).iter().map(|s| s.id).collect();
    assert_eq!(ids, vec![12, 11]);
}

#[test]
fn zero_limit_keeps_the_newest() {
    let mut h = NotificationHistory::new(0);
    h.push(&note(1, None));
    h.push(&note(2, None));
    let ids: Vec<u32> = h.recent(usize::MAX).iter().map(|s| s.id).collect();
    assert_eq!(ids, vec![2]);
}
