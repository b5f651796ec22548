use notiser::config::{ActionsConfig, ClickAction};
use notiser::input::{action_for_button, resolve_click, HitResult, InputAction, BTN_LEFT, BTN_MIDDLE, BTN_RIGHT};

#[test]
fn buttons_map_to_configured_actions() {
    let cfg = ActionsConfig::default();
    assert!(matches!(action_for_button(BTN_LEFT, &cfg), ClickAction::InvokeDefault));
    assert!(matches!(action_for_button(BTN_RIGHT, &cfg), ClickAction::Dismiss));
    assert!(matches!(action_for_button(BTN_MIDDLE, &cfg), ClickAction::DismissAll));
    assert!(matches!(action_for_button(0x113, &cfg), ClickAction::DoNothing));
}

#[test]
fn click_outcomes() {
    let mut cfg = ActionsConfig::default();
    assert!(matches!(resolve_click(BTN_LEFT, HitResult::Notification(4), &cfg), Some(InputAction::InvokeDefault(4))));
    assert!(matches!(resolve_click(BTN_RIGHT, HitResult::Notification(4), &cfg), Some(InputAction::Dismiss(4))));
    assert!(resolve_click(BTN_RIGHT, HitResult::Miss, &cfg).is_none());
    assert!(matches!(resolve_click(BTN_MIDDLE, HitResult::Miss, &cfg), Some(InputAction::DismissAll)));
    assert!(resolve_click(0x113, HitResult::Notification(4), &cfg).is_none());
    cfg.on_left_click = ClickAction::InvokeAction("reply".into());
    match resolve_click(BTN_LEFT, HitResult::Notification(9), &cfg) {
        Some(InputAction::InvokeAction(id, key)) => {
            assert_eq!(id, 9);
            assert_eq!(key, "reply");
        }
        other => panic!("unexpected {other:?}"),
    }
}
