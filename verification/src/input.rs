use vstd::prelude::*;

use crate::config::{ActionsConfig, ClickAction};

verus! {

/// Linux input button codes.
pub const BTN_LEFT: u32 = 0x110;
pub const BTN_RIGHT: u32 = 0x111;
pub const BTN_MIDDLE: u32 = 0x112;

/// Result of hit-testing a click position against notification cards.
#[derive(Debug, Clone, Copy, PartialEq, Eq, Structural)]
pub enum HitResult {
    /// Click landed on a notification card.
    Notification(u32),
    /// Click didn't hit any card.
    Miss,
}

/// A click action to be carried out by the main loop.
#[derive(Debug)]
pub enum InputAction {
    Dismiss(u32),
    DismissAll,
    InvokeDefault(u32),
    InvokeAction(u32, String),
}

/// The configured action of a mouse button; other buttons do nothing.
pub open spec fn button_action(button: u32, actions: ActionsConfig) -> ClickAction {
    if button == BTN_LEFT {
        actions.on_left_click
    } else if button == BTN_RIGHT {
        actions.on_right_click
    } else if button == BTN_MIDDLE {
        actions.on_middle_click
    } else {
        ClickAction::DoNothing
    }
}

/// Map a mouse button code to the corresponding click action from config.
pub fn action_for_button(button: u32, actions: &ActionsConfig) -> (r: &ClickAction)
    ensures
        *r == button_action(button, *actions),
{
    match button {
        BTN_LEFT => &actions.on_left_click,
        BTN_RIGHT => &actions.on_right_click,
        BTN_MIDDLE => &actions.on_middle_click,
        _ => &ClickAction::DoNothing,
    }
}

/// What a click does: dismiss-all acts anywhere; the other actions act on
/// the card that was hit and on nothing when no card was hit.
pub open spec fn click_outcome(action: ClickAction, hit: HitResult) -> Option<InputAction> {
    match (action, hit) {
        (ClickAction::Dismiss, HitResult::Notification(id)) => Some(InputAction::Dismiss(id)),
        (ClickAction::DismissAll, _) => Some(InputAction::DismissAll),
        (ClickAction::InvokeDefault, HitResult::Notification(id)) => Some(InputAction::InvokeDefault(id)),
        (ClickAction::InvokeAction(key), HitResult::Notification(id)) => Some(InputAction::InvokeAction(id, key)),
        _ => None,
    }
}

/// The action for a button press, given where it hit.
pub fn resolve_click(button: u32, hit: HitResult, actions_config: &ActionsConfig) -> (r: Option<InputAction>)
    ensures
        r == click_outcome(button_action(button, *actions_config), hit),
{
    let action = action_for_button(button, actions_config);
    match (action, hit) {
        (ClickAction::Dismiss, HitResult::Notification(id)) => Some(InputAction::Dismiss(id)),
        (ClickAction::DismissAll, _) => Some(InputAction::DismissAll),
        (ClickAction::InvokeDefault, HitResult::Notification(id)) => Some(InputAction::InvokeDefault(id)),
        (ClickAction::InvokeAction(key), HitResult::Notification(id)) => Some(InputAction::InvokeAction(id, key.clone())),
        (ClickAction::DoNothing, _) => None,
        (_, HitResult::Miss) => None,
    }
}

/// The action configured for a button: left, right and middle click each
/// have their own; any other button has none.
pub open spec fn configured(button: u32, actions: ActionsConfig) -> Option<ClickAction> {
    if button == 0x110 {
        Some(actions.on_left_click)
    } else if button == 0x111 {
        Some(actions.on_right_click)
    } else if button == 0x112 {
        Some(actions.on_middle_click)
    } else {
        None
    }
}

/// What a click decides, in terms of the configured actions:
/// - a button configured to dismiss all dismisses all, hit or miss;
/// - a button with no configured action, or configured to do nothing, does
///   nothing;
/// - a click that hits no card does nothing unless it dismisses all;
/// - a click on a card dismisses, invokes the default action of, or
///   invokes the configured action key on that very card.
pub proof fn lemma_click_outcome(button: u32, hit: HitResult, actions: ActionsConfig)
    ensures
        ({
            let r = click_outcome(button_action(button, actions), hit);
            &&& (configured(button, actions) matches Some(a) && a is DismissAll) ==> r == Some(
                InputAction::DismissAll,
            )
            &&& (configured(button, actions) is None || configured(button, actions) == Some(
                ClickAction::DoNothing,
            )) ==> r is None
            &&& (hit is Miss && !(configured(button, actions) matches Some(a) && a is DismissAll))
                ==> r is None
            &&& hit matches HitResult::Notification(id) ==> {
                &&& configured(button, actions) == Some(ClickAction::Dismiss) ==> r == Some(
                    InputAction::Dismiss(id),
                )
                &&& configured(button, actions) == Some(ClickAction::InvokeDefault) ==> r == Some(
                    InputAction::InvokeDefault(id),
                )
                &&& configured(button, actions) matches Some(ClickAction::InvokeAction(key)) ==> r
                    == Some(InputAction::InvokeAction(id, key))
            }
        }),
{
}

} // verus!
