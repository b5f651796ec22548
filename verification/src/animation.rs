use std::collections::HashMap;

use vstd::prelude::*;

use crate::notification::max_duration_nanos;

verus! {

broadcast use vstd::std_specs::hash::group_hash_axioms;

#[derive(Debug, Clone, Copy, PartialEq, Eq, Structural)]
pub enum AnimationPreset {
    Disabled,
    Standard,
    Dynamic,
    Custom,
}

#[derive(Debug, Clone, Copy, PartialEq, Eq, Structural)]
pub enum AnimationState {
    Entering,
    Visible,
    Exiting,
    Dismissed,
}

#[derive(Debug, Clone, Copy, PartialEq, Eq, Structural)]
pub enum TransitionKind {
    SlideDown,
    SlideUp,
    SlideLeft,
    SlideRight,
    FadeIn,
    FadeOut,
    Scale,
    Grow,
    Shrink,
}

/// The named easing curves that the presets use (the cubic Bézier control
/// points belong to the renderer).
#[derive(Debug, Clone, Copy, PartialEq, Eq, Structural)]
pub enum CurvePreset {
    EaseOut,
    EaseIn,
    EaseInOut,
    Spring,
    SpringHeavy,
}

/// Animation progress of one notification; times in nanoseconds.
#[derive(Debug, Clone, Copy, PartialEq, Eq, Structural)]
pub struct NotificationAnim {
    pub state: AnimationState,
    pub elapsed: u128,
    pub duration: u128,
    pub curve: CurvePreset,
    pub transition: TransitionKind,
}

impl NotificationAnim {
    pub open spec fn spec_is_finished(self) -> bool {
        self.elapsed >= self.duration
    }

    pub fn is_finished(&self) -> (r: bool)
        ensures
            r == self.spec_is_finished(),
    {
        self.elapsed >= self.duration
    }
}

/// A fresh animation at time zero.
pub open spec fn fresh_anim(
    state: AnimationState,
    transition: TransitionKind,
    duration: u128,
    curve: CurvePreset,
) -> NotificationAnim {
    NotificationAnim { state, elapsed: 0, duration, curve, transition }
}

/// The animation after `dt` more nanoseconds: an enter animation that has
/// run its course becomes visible, an exit animation becomes dismissed.
pub open spec fn advanced(a: NotificationAnim, dt: u128) -> NotificationAnim {
    let elapsed = (a.elapsed + dt) as u128;
    let state = if elapsed >= a.duration {
        match a.state {
            AnimationState::Entering => AnimationState::Visible,
            AnimationState::Exiting => AnimationState::Dismissed,
            s => s,
        }
    } else {
        a.state
    };
    NotificationAnim { state, elapsed, ..a }
}

/// An exit animation that completes within the next `dt` nanoseconds.
pub open spec fn exit_completes(a: NotificationAnim, dt: u128) -> bool {
    a.state == AnimationState::Exiting && a.elapsed + dt >= a.duration
}

/// An enter animation is visible once its duration has passed, and still
/// entering before.
pub proof fn lemma_enter_completes(
    transition: TransitionKind,
    duration: u128,
    curve: CurvePreset,
    dt: u128,
)
    ensures
        advanced(fresh_anim(AnimationState::Entering, transition, duration, curve), dt).state == if dt
            >= duration {
            AnimationState::Visible
        } else {
            AnimationState::Entering
        },
        !exit_completes(fresh_anim(AnimationState::Entering, transition, duration, curve), dt),
{
}

/// An exit animation is reported by the tick that reaches its duration, and
/// not before.
pub proof fn lemma_exit_completes(
    transition: TransitionKind,
    duration: u128,
    curve: CurvePreset,
    dt: u128,
)
    ensures
        exit_completes(fresh_anim(AnimationState::Exiting, transition, duration, curve), dt) <==> dt
            >= duration,
{
}

/// Visible and dismissed animations stay as they are when time passes.
pub proof fn lemma_settled_states_stay(a: NotificationAnim, dt: u128)
    requires
        a.state == AnimationState::Visible || a.state == AnimationState::Dismissed,
    ensures
        advanced(a, dt).state == a.state,
        !exit_completes(a, dt),
{
}

/// Manages animation state for all active notifications.
pub struct AnimationController {
    anims: HashMap<u32, NotificationAnim>,
    enter_transition: TransitionKind,
    exit_transition: TransitionKind,
    enter_duration: u128,
    exit_duration: u128,
    enter_curve: CurvePreset,
    exit_curve: CurvePreset,
    enabled: bool,
}

pub struct ControllerView {
    pub anims: Map<u32, NotificationAnim>,
    pub enter_transition: TransitionKind,
    pub exit_transition: TransitionKind,
    pub enter_duration: u128,
    pub exit_duration: u128,
    pub enter_curve: CurvePreset,
    pub exit_curve: CurvePreset,
    pub enabled: bool,
}

impl View for AnimationController {
    type V = ControllerView;

    closed spec fn view(&self) -> ControllerView {
        ControllerView {
            anims: self.anims@,
            enter_transition: self.enter_transition,
            exit_transition: self.exit_transition,
            enter_duration: self.enter_duration,
            exit_duration: self.exit_duration,
            enter_curve: self.enter_curve,
            exit_curve: self.exit_curve,
            enabled: self.enabled,
        }
    }
}

/// The settings of a preset: transitions, durations in milliseconds, curves
/// and whether animation is on at all.
pub open spec fn preset_settings(preset: AnimationPreset) -> (
    TransitionKind,
    TransitionKind,
    u128,
    u128,
    CurvePreset,
    CurvePreset,
    bool,
) {
    match preset {
        AnimationPreset::Disabled => (
            TransitionKind::FadeIn,
            TransitionKind::FadeOut,
            0,
            0,
            CurvePreset::EaseOut,
            CurvePreset::EaseIn,
            false,
        ),
        AnimationPreset::Standard => (
            TransitionKind::SlideDown,
            TransitionKind::SlideUp,
            250,
            200,
            CurvePreset::EaseOut,
            CurvePreset::EaseIn,
            true,
        ),
        AnimationPreset::Dynamic => (
            TransitionKind::Scale,
            TransitionKind::Shrink,
            350,
            250,
            CurvePreset::Spring,
            CurvePreset::EaseInOut,
            true,
        ),
        AnimationPreset::Custom => (
            TransitionKind::SlideDown,
            TransitionKind::FadeOut,
            300,
            200,
            CurvePreset::EaseOut,
            CurvePreset::EaseIn,
            true,
        ),
    }
}

/// Two controller states with the same transitions, durations, curves and
/// on/off switch.
pub open spec fn keeps_settings(after: ControllerView, before: ControllerView) -> bool {
    &&& after.enter_transition == before.enter_transition
    &&& after.exit_transition == before.exit_transition
    &&& after.enter_duration == before.enter_duration
    &&& after.exit_duration == before.exit_duration
    &&& after.enter_curve == before.enter_curve
    &&& after.exit_curve == before.exit_curve
    &&& after.enabled == before.enabled
}

/// A controller state that has the settings of a preset.
pub open spec fn has_preset_settings(c: ControllerView, preset: AnimationPreset) -> bool {
    &&& c.enter_transition == preset_settings(preset).0
    &&& c.exit_transition == preset_settings(preset).1
    &&& c.enter_duration == millis(preset_settings(preset).2)
    &&& c.exit_duration == millis(preset_settings(preset).3)
    &&& c.enter_curve == preset_settings(preset).4
    &&& c.exit_curve == preset_settings(preset).5
    &&& c.enabled == preset_settings(preset).6
}

/// Every preset but the disabled one animates, with enter and exit
/// animations that take time; the disabled one animates nothing and takes
/// none. A controller built from a preset is on exactly when the preset is
/// not the disabled one.
pub proof fn lemma_presets_animate(p: AnimationPreset, c: ControllerView)
    ensures
        preset_settings(p).6 <==> p != AnimationPreset::Disabled,
        p != AnimationPreset::Disabled ==> preset_settings(p).2 > 0 && preset_settings(p).3 > 0,
        p == AnimationPreset::Disabled ==> preset_settings(p).2 == 0 && preset_settings(p).3 == 0,
        has_preset_settings(c, p) ==> (c.enabled <==> p != AnimationPreset::Disabled),
        has_preset_settings(c, p) && p != AnimationPreset::Disabled ==> c.enter_duration > 0 && c.exit_duration
            > 0,
{
}

/// A controller keeps its preset's settings through any run of calls that
/// each keep the settings.
pub proof fn lemma_preset_settings_kept(before: ControllerView, after: ControllerView, preset: AnimationPreset)
    requires
        has_preset_settings(before, preset),
        keeps_settings(after, before),
    ensures
        has_preset_settings(after, preset),
{
}

/// Nanoseconds in a number of milliseconds.
pub open spec fn millis(ms: u128) -> u128 {
    (ms * 1000000) as u128
}

impl AnimationController {
    pub fn from_preset(preset: AnimationPreset) -> (c: Self)
        ensures
            c@.anims == Map::<u32, NotificationAnim>::empty(),
            has_preset_settings(c@, preset),
    {
        match preset {
            AnimationPreset::Disabled => AnimationController {
                anims: HashMap::new(),
                enter_transition: TransitionKind::FadeIn,
                exit_transition: TransitionKind::FadeOut,
                enter_duration: 0,
                exit_duration: 0,
                enter_curve: CurvePreset::EaseOut,
                exit_curve: CurvePreset::EaseIn,
                enabled: false,
            },
            AnimationPreset::Standard => AnimationController {
                anims: HashMap::new(),
                enter_transition: TransitionKind::SlideDown,
                exit_transition: TransitionKind::SlideUp,
                enter_duration: 250 * 1000000,
                exit_duration: 200 * 1000000,
                enter_curve: CurvePreset::EaseOut,
                exit_curve: CurvePreset::EaseIn,
                enabled: true,
            },
            AnimationPreset::Dynamic => AnimationController {
                anims: HashMap::new(),
                enter_transition: TransitionKind::Scale,
                exit_transition: TransitionKind::Shrink,
                enter_duration: 350 * 1000000,
                exit_duration: 250 * 1000000,
                enter_curve: CurvePreset::Spring,
                exit_curve: CurvePreset::EaseInOut,
                enabled: true,
            },
            AnimationPreset::Custom => AnimationController {
                anims: HashMap::new(),
                enter_transition: TransitionKind::SlideDown,
                exit_transition: TransitionKind::FadeOut,
                enter_duration: 300 * 1000000,
                exit_duration: 200 * 1000000,
                enter_curve: CurvePreset::EaseOut,
                exit_curve: CurvePreset::EaseIn,
                enabled: true,
            },
        }
    }

    /// Start the enter animation for a notification (nothing happens when
    /// animation is off).
    pub fn on_enter(&mut self, id: u32)
        ensures
            final(self)@.anims == if old(self)@.enabled {
                old(self)@.anims.insert(
                    id,
                    fresh_anim(
                        AnimationState::Entering,
                        old(self)@.enter_transition,
                        old(self)@.enter_duration,
                        old(self)@.enter_curve,
                    ),
                )
            } else {
                old(self)@.anims
            },
            keeps_settings(final(self)@, old(self)@),
    {
        if !self.enabled {
            return;
        }
        let anim = NotificationAnim {
            state: AnimationState::Entering,
            elapsed: 0,
            duration: self.enter_duration,
            curve: self.enter_curve,
            transition: self.enter_transition,
        };
        self.anims.insert(id, anim);
    }

    /// Start the exit animation for a notification. Returns true when an
    /// exit animation was started (the caller should then keep the
    /// notification until `tick` reports it); with animation off the
    /// notification's tracking is dropped and false comes back.
    pub fn on_exit(&mut self, id: u32) -> (started: bool)
        ensures
            started == old(self)@.enabled,
            final(self)@.anims == if old(self)@.enabled {
                old(self)@.anims.insert(
                    id,
                    fresh_anim(
                        AnimationState::Exiting,
                        old(self)@.exit_transition,
                        old(self)@.exit_duration,
                        old(self)@.exit_curve,
                    ),
                )
            } else {
                old(self)@.anims.remove(id)
            },
            keeps_settings(final(self)@, old(self)@),
    {
        if !self.enabled {
            self.anims.remove(&id);
            return false;
        }
        let anim = NotificationAnim {
            state: AnimationState::Exiting,
            elapsed: 0,
            duration: self.exit_duration,
            curve: self.exit_curve,
            transition: self.exit_transition,
        };
        self.anims.insert(id, anim);
        true
    }

    /// The ids of the tracked notifications, each once.
    fn tracked_ids(&self) -> (ids: Vec<u32>)
        ensures
            ids@.no_duplicates(),
            forall|k: u32| #[trigger] ids@.contains(k) <==> self@.anims.contains_key(k),
    {
        let mut out: Vec<u32> = Vec::new();
        for k in it: self.anims.keys()
            invariant
                it.seq().unref().to_set() == self.anims@.dom(),
                it.seq().no_duplicates(),
                out@ == it.seq().unref().take(it.index() as int),
                it.index() == it.seq().len() ==> out@ == it.seq().unref(),
        {
            let ghost idx = it.index();
            assert(*k == it.seq().unref()[idx]);
            out.push(*k);
            assert(it.seq().unref().take(idx + 1) =~= out@);
            assert(idx + 1 == it.seq().len() ==> it.seq().unref().take(idx + 1) =~= it.seq().unref());
        }
        assert forall|k: u32| #[trigger] out@.contains(k) <==> self@.anims.contains_key(k) by {
            if out@.contains(k) {
                assert(out@.to_set().contains(k));
            }
            if self@.anims.contains_key(k) {
                assert(out@.to_set().contains(k));
            }
        }
        out
    }

    /// Advance every animation by `dt` nanoseconds. Exit animations that
    /// complete are dropped and their ids returned (the notifications are
    /// then ready for removal).
    pub fn tick(&mut self, dt: u128) -> (finished: Vec<u32>)
        requires
            forall|k: u32| #[trigger] old(self)@.anims.contains_key(k)
                ==> old(self)@.anims[k].elapsed + dt <= max_duration_nanos(),
        ensures
            finished@.no_duplicates(),
            forall|k: u32| #[trigger] finished@.contains(k) <==> (old(self)@.anims.contains_key(k)
                && exit_completes(old(self)@.anims[k], dt)),
            forall|k: u32| #[trigger] final(self)@.anims.contains_key(k) <==> (old(self)@.anims.contains_key(k)
                && !exit_completes(old(self)@.anims[k], dt)),
            forall|k: u32| #[trigger] final(self)@.anims.contains_key(k)
                ==> final(self)@.anims[k] == advanced(old(self)@.anims[k], dt),
            keeps_settings(final(self)@, old(self)@),
    {
        let ghost start = self.anims@;
        let ids = self.tracked_ids();
        let mut finished: Vec<u32> = Vec::new();
        let n = ids.len();
        assert forall|j: int| 0 <= j < n implies start.contains_key(#[trigger] ids@[j]) by {
            assert(ids@.contains(ids@[j]));
        }
        let mut i: usize = 0;
        while i < n
            invariant
                n == ids@.len(),
                i <= n,
                ids@.no_duplicates(),
                forall|k: u32| #[trigger] ids@.contains(k) <==> start.contains_key(k),
                forall|k: u32| #[trigger] start.contains_key(k) ==> start[k].elapsed + dt <= max_duration_nanos(),
                keeps_settings(self@, old(self)@),
                forall|k: u32| #[trigger] self.anims@.contains_key(k) ==> start.contains_key(k),
                forall|j: int| 0 <= j < i ==> {
                    let k = #[trigger] ids@[j];
                    if exit_completes(start[k], dt) {
                        !self.anims@.contains_key(k)
                    } else {
                        self.anims@.contains_key(k) && self.anims@[k] == advanced(start[k], dt)
                    }
                },
                forall|j: int| i <= j < n ==> {
                    let k = #[trigger] ids@[j];
                    self.anims@.contains_key(k) && self.anims@[k] == start[k]
                },
                finished@.no_duplicates(),
                forall|k: u32| #[trigger] finished@.contains(k) <==> (exists|j: int| 0 <= j < i && ids@[j] == k)
                    && exit_completes(start[k], dt),
            decreases n - i,
        {
            let id = ids[i];
            assert(ids@.contains(id));
            let anim = *self.anims.get(&id).unwrap();
            let elapsed = anim.elapsed + dt;
            let state = if elapsed >= anim.duration {
                match anim.state {
                    AnimationState::Entering => AnimationState::Visible,
                    AnimationState::Exiting => AnimationState::Dismissed,
                    s => s,
                }
            } else {
                anim.state
            };
            let next = NotificationAnim { state, elapsed, ..anim };
            let ghost before_fin = finished@;
            if anim.state == AnimationState::Exiting && elapsed >= anim.duration {
                self.anims.remove(&id);
                finished.push(id);
            } else {
                self.anims.insert(id, next);
            }
            proof {
                assert forall|j: int| 0 <= j < i + 1 implies {
                    let k = #[trigger] ids@[j];
                    if exit_completes(start[k], dt) {
                        !self.anims@.contains_key(k)
                    } else {
                        self.anims@.contains_key(k) && self.anims@[k] == advanced(start[k], dt)
                    }
                } by {
                    if j < i {
                        assert(ids@[j] != id);
                    }
                }
                assert forall|j: int| i + 1 <= j < n implies {
                    let k = #[trigger] ids@[j];
                    self.anims@.contains_key(k) && self.anims@[k] == start[k]
                } by {
                    assert(ids@[j] != id);
                }
                assert forall|k: u32| #[trigger] finished@.contains(k) <==> (exists|j: int| 0 <= j < i + 1 && ids@[j] == k)
                    && exit_completes(start[k], dt) by {
                    if finished@.contains(k) && k != id {
                        assert(before_fin.contains(k));
                    }
                    if exists|j: int| 0 <= j < i + 1 && ids@[j] == k {
                        let j = choose|j: int| 0 <= j < i + 1 && ids@[j] == k;
                        if j < i && exit_completes(start[k], dt) {
                            assert(before_fin.contains(k));
                            let w = choose|w: int| 0 <= w < before_fin.len() && before_fin[w] == k;
                            assert(finished@[w] == k);
                        }
                        if j == i && exit_completes(start[k], dt) {
                            assert(finished@[finished@.len() - 1] == k);
                        }
                    }
                }
                if anim.state == AnimationState::Exiting && elapsed >= anim.duration {
                    assert forall|a: int, b: int| 0 <= a < b < finished@.len() implies finished@[a] != finished@[b] by {
                        if b == finished@.len() - 1 {
                            assert(before_fin.contains(finished@[a]));
                            let j = choose|j: int| 0 <= j < i && ids@[j] == finished@[a];
                            assert(ids@[j] != id);
                        }
                    }
                }
            }
            i = i + 1;
        }
        proof {
            assert forall|k: u32| #[trigger] self.anims@.contains_key(k) <==> (start.contains_key(k)
                && !exit_completes(start[k], dt)) by {
                if start.contains_key(k) {
                    assert(ids@.contains(k));
                    let j = choose|j: int| 0 <= j < n && ids@[j] == k;
                    assert(ids@[j] == k);
                }
            }
            assert forall|k: u32| #[trigger] self.anims@.contains_key(k) implies self.anims@[k] == advanced(start[k], dt) by {
                assert(ids@.contains(k));
                let j = choose|j: int| 0 <= j < n && ids@[j] == k;
                assert(ids@[j] == k);
            }
            assert forall|k: u32| #[trigger] finished@.contains(k) <==> (start.contains_key(k)
                && exit_completes(start[k], dt)) by {
                if start.contains_key(k) && exit_completes(start[k], dt) {
                    assert(ids@.contains(k));
                    let j = choose|j: int| 0 <= j < n && ids@[j] == k;
                    assert(exists|j: int| 0 <= j < n && ids@[j] == k);
                }
            }
        }
        finished
    }

    /// Whether every animation's elapsed time, `dt` nanoseconds later, still
    /// fits a `Duration` (what `tick` needs).
    pub fn fits_tick(&self, dt: u128) -> (r: bool)
        ensures
            r == forall|k: u32| #[trigger] self@.anims.contains_key(k)
                ==> self@.anims[k].elapsed + dt <= max_duration_nanos(),
    {
        let ids = self.tracked_ids();
        let n = ids.len();
        let mut i: usize = 0;
        while i < n
            invariant
                n == ids@.len(),
                i <= n,
                forall|k: u32| #[trigger] ids@.contains(k) <==> self@.anims.contains_key(k),
                forall|j: int| 0 <= j < i ==> {
                    let k = #[trigger] ids@[j];
                    self@.anims[k].elapsed + dt <= max_duration_nanos()
                },
            decreases n - i,
        {
            let id = ids[i];
            assert(ids@.contains(id));
            let a = self.anims.get(&id).unwrap();
            if dt > 18446744073709551615999999999u128 || a.elapsed > 18446744073709551615999999999u128 - dt {
                return false;
            }
            i = i + 1;
        }
        proof {
            assert forall|k: u32| #[trigger] self@.anims.contains_key(k) implies self@.anims[k].elapsed + dt
                <= max_duration_nanos() by {
                assert(ids@.contains(k));
                let j = choose|j: int| 0 <= j < n && ids@[j] == k;
                assert(ids@[j] == k);
            }
        }
        true
    }

    /// The animation of a notification, if it has one.
    pub fn anim(&self, id: u32) -> (r: Option<NotificationAnim>)
        ensures
            r == (if self@.anims.contains_key(id) { Some(self@.anims[id]) } else { None::<NotificationAnim> }),
    {
        match self.anims.get(&id) {
            Some(a) => Some(*a),
            None => None,
        }
    }

    /// Whether any enter or exit animation is running.
    pub fn has_active(&self) -> (r: bool)
        ensures
            r == exists|k: u32| #[trigger] self@.anims.contains_key(k) && (self@.anims[k].state
                == AnimationState::Entering || self@.anims[k].state == AnimationState::Exiting),
    {
        let ids = self.tracked_ids();
        let n = ids.len();
        let mut i: usize = 0;
        while i < n
            invariant
                n == ids@.len(),
                i <= n,
                forall|k: u32| #[trigger] ids@.contains(k) <==> self@.anims.contains_key(k),
                forall|j: int| 0 <= j < i ==> {
                    let k = #[trigger] ids@[j];
                    !(self@.anims[k].state == AnimationState::Entering || self@.anims[k].state
                        == AnimationState::Exiting)
                },
            decreases n - i,
        {
            let id = ids[i];
            assert(ids@.contains(id));
            let a = self.anims.get(&id).unwrap();
            if a.state == AnimationState::Entering || a.state == AnimationState::Exiting {
                return true;
            }
            i = i + 1;
        }
        proof {
            assert forall|k: u32| #[trigger] self@.anims.contains_key(k) implies !(self@.anims[k].state
                == AnimationState::Entering || self@.anims[k].state == AnimationState::Exiting) by {
                assert(ids@.contains(k));
                let j = choose|j: int| 0 <= j < n && ids@[j] == k;
                assert(ids@[j] == k);
            }
        }
        false
    }

    /// Whether a notification is in its exit animation.
    pub fn is_exiting(&self, id: u32) -> (r: bool)
        ensures
            r == (self@.anims.contains_key(id) && self@.anims[id].state == AnimationState::Exiting),
    {
        match self.anims.get(&id) {
            Some(a) => a.state == AnimationState::Exiting,
            None => false,
        }
    }

    /// Stop tracking a notification.
    pub fn remove(&mut self, id: u32)
        ensures
            final(self)@.anims == old(self)@.anims.remove(id),
            keeps_settings(final(self)@, old(self)@),
    {
        self.anims.remove(&id);
    }
}

} // verus!
