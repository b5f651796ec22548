use std::time::Instant;

use notiser::manager::NotificationManager;
use notiser::notification::{Notification, NotificationHints};

fn note(id: u32, summary: &str) -> Notification {
    Notification {
        id,
        app_name: "app".into(),
        app_icon: String::new(),
        summary: summary.into(),
        body: String::new(),
        actions: vec![],
        hints: NotificationHints::default(),
        expire_timeout: -1,
        created_at: Instant::now(),
        replaces_id: None,
    }
}

#[test]
fn ids_count_up_from_one() {
    let mut m = NotificationManager::new();
    assert_eq!(m.allocate_id(), 1);
    assert_eq!(m.allocate_id(), 2);
    assert_eq!(m.allocate_id(), 3);
}

#[test]
fn add_get_remove() {
    let mut m = NotificationManager::new();
    assert_eq!(m.add(note(5, "five")), 5);
    assert_eq!(m.add(note(2, "two")), 2);
    assert_eq!(m.active_count(), 2);
    assert_eq!(m.get(5).unwrap().summary, "five");
    assert!(m.get(3).is_none());
    // Same id replaces.
    m.add(note(5, "five again"));
    assert_eq!(m.active_count(), 2);
    assert_eq!(m.get(5).unwrap().summary, "five again");
    let removed = m.remove(5).unwrap();
    assert_eq!(removed.summary, "five again");
    assert!(m.remove(5).is_none());
    assert_eq!(m.active_count(), 1);
}

#[test]
fn active_ids_sorted() {
    let mut m = NotificationManager::new();
    for id in [9, 3, 7, 1, 12] {
        m.add(note(id, "x"));
    }
    assert_eq!(m.active_ids(), vec![1, 3, 7, 9, 12]);
    m.remove(7);
    assert_eq!(m.active_ids(), vec![1, 3, 9, 12]);
    assert!(NotificationManager::new().active_ids().is_empty());
}

#[test]
fn iter_lists_each_once() {
    let mut m = NotificationManager::new();
    for id in [4, 8, 15] {
        m.add(note(id, "x"));
    }
    let mut ids: Vec<u32> = m.iter().iter().map(|n| n.id).collect();
    ids.sort();
    assert_eq!(ids, vec![4, 8, 15]);
}
