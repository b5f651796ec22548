use notiser::animation::{AnimationController, AnimationPreset, AnimationState, TransitionKind};

const MS: u128 = 1_000_000;

#[test]
fn standard_preset_enter_exit() {
    let mut ctrl = AnimationController::from_preset(AnimationPreset::Standard);

    ctrl.on_enter(1);
    assert!(ctrl.has_active());

    // Partially tick: the enter animation is under way.
    let finished = ctrl.tick(100 * MS);
    assert!(finished.is_empty());
    let anim = ctrl.anim(1).unwrap();
    assert_eq!(anim.state, AnimationState::Entering);
    assert!(anim.elapsed > 0 && anim.elapsed < anim.duration);

    // Complete enter: the card is fully visible.
    let finished = ctrl.tick(200 * MS);
    assert!(finished.is_empty());
    assert_eq!(ctrl.anim(1).unwrap().state, AnimationState::Visible);

    // Start exit
    assert!(ctrl.on_exit(1));
    assert!(ctrl.has_active());

    // Complete exit
    let finished = ctrl.tick(250 * MS);
    assert_eq!(finished, vec![1]);
    assert!(!ctrl.has_active());
}

#[test]
fn no_animation_preset() {
    let mut ctrl = AnimationController::from_preset(AnimationPreset::Disabled);

    ctrl.on_enter(1);
    assert!(!ctrl.has_active());

    // on_exit returns false (no animation, remove immediately)
    assert!(!ctrl.on_exit(1));
}

#[test]
fn props_default_when_no_anim() {
    let ctrl = AnimationController::from_preset(AnimationPreset::Standard);
    assert!(ctrl.anim(999).is_none());
}

#[test]
fn exit_is_reported_once_and_dropped() {
    let mut ctrl = AnimationController::from_preset(AnimationPreset::Dynamic);
    ctrl.on_enter(1);
    ctrl.on_enter(2);
    assert!(ctrl.on_exit(2));
    assert!(ctrl.is_exiting(2));
    assert!(!ctrl.is_exiting(1));
    let anim = ctrl.anim(2).unwrap();
    assert_eq!(anim.transition, TransitionKind::Shrink);
    assert_eq!(anim.duration, 250 * MS);
    let finished = ctrl.tick(250 * MS);
    assert_eq!(finished, vec![2]);
    assert!(ctrl.anim(2).is_none());
    assert_eq!(ctrl.anim(1).unwrap().state, AnimationState::Entering);
    assert!(ctrl.tick(100 * MS).is_empty());
    assert_eq!(ctrl.anim(1).unwrap().state, AnimationState::Visible);
    assert!(!ctrl.has_active());
    ctrl.remove(1);
    assert!(ctrl.anim(1).is_none());
}

#[test]
fn tick_fits_until_duration_overflows() {
    let mut ctrl = AnimationController::from_preset(AnimationPreset::Standard);
    assert!(ctrl.fits_tick(u128::MAX));
    ctrl.on_enter(1);
    let max: u128 = u64::MAX as u128 * 1_000_000_000 + 999_999_999;
    assert!(ctrl.fits_tick(max));
    assert!(!ctrl.fits_tick(max + 1));
    ctrl.tick(5 * MS);
    assert!(ctrl.fits_tick(max - 5 * MS));
    assert!(!ctrl.fits_tick(max - 5 * MS + 1));
}
