//! What the daemon decides for each D-Bus command and timer tick; the main
//! loop performs the I/O and hands the replies back.
use vstd::prelude::*;

use crate::action::{DbusSignal, NotificationSummary, OwnedHintValue};
use crate::hints::{decoded_hints, parse_actions, parse_hints};
use crate::history::{summarize, summary_of};
use crate::manager::{following_id, NotificationManager};
use crate::notification::{elapsed_nanos, instant_now, CloseReason, Notification};

verus! {

/// A `Notify` call: the new notification takes a fresh id, its actions and
/// hints are decoded, and it is stored. Returns the id.
pub fn handle_notify(
    manager: &mut NotificationManager,
    app_name: String,
    replaces_id: u32,
    app_icon: String,
    summary: String,
    body: String,
    actions: &[String],
    hints: &[(String, OwnedHintValue)],
    expire_timeout: i32,
) -> (id: u32)
    ensures
        id == old(manager)@.next_id,
        final(manager)@.next_id == following_id(id),
        final(manager)@.active.remove(id) == old(manager)@.active.remove(id),
        final(manager)@.active.contains_key(id),
        ({
            let n = final(manager)@.active[id];
            &&& n.id == id
            &&& n.app_name == app_name
            &&& n.app_icon == app_icon
            &&& n.summary == summary
            &&& n.body == body
            &&& n.hints@ == decoded_hints(hints@)
            &&& n.actions@.len() == actions@.len() / 2
            &&& forall|i: int| 0 <= i < n.actions@.len() ==> {
                &&& (#[trigger] n.actions@[i]).key@ == actions@[2 * i]@
                &&& n.actions@[i].label@ == actions@[2 * i + 1]@
            }
            &&& n.expire_timeout == expire_timeout
            &&& n.replaces_id == (if replaces_id > 0 { Some(replaces_id) } else { None::<u32> })
        }),
{
    let id = manager.allocate_id();
    let parsed_hints = parse_hints(hints);
    let parsed_actions = parse_actions(actions);
    let notification = Notification {
        id,
        app_name,
        app_icon,
        summary,
        body,
        actions: parsed_actions,
        hints: parsed_hints,
        expire_timeout,
        created_at: instant_now(),
        replaces_id: if replaces_id > 0 { Some(replaces_id) } else { None },
    };
    manager.add(notification);
    proof {
        assert(final(manager)@.active.remove(id) =~= old(manager)@.active.remove(id));
    }
    id
}

/// A `CloseNotification` call: an active notification is removed and the
/// `NotificationClosed` signal (reason: closed) is owed; an unknown id
/// changes nothing.
pub fn handle_close(manager: &mut NotificationManager, id: u32) -> (signal: Option<DbusSignal>)
    ensures
        final(manager)@.active == old(manager)@.active.remove(id),
        final(manager)@.next_id == old(manager)@.next_id,
        match signal {
            Some(DbusSignal::NotificationClosed { id: sid, reason }) => old(manager)@.active.contains_key(id)
                && sid == id && reason == CloseReason::Closed,
            Some(_) => false,
            None => !old(manager)@.active.contains_key(id),
        },
{
    match manager.remove(id) {
        Some(_) => Some(DbusSignal::NotificationClosed { id, reason: CloseReason::Closed }),
        None => None,
    }
}

/// The capabilities that the daemon announces.
pub open spec fn capability_names() -> Seq<Seq<char>> {
    seq![
        "body"@,
        "body-markup"@,
        "body-hyperlinks"@,
        "actions"@,
        "icon-static"@,
        "persistence"@,
    ]
}

pub fn capabilities() -> (caps: Vec<String>)
    ensures
        caps@.map_values(|s: String| s@) == capability_names(),
{
    let mut caps: Vec<String> = Vec::new();
    caps.push(String::from_str("body"));
    caps.push(String::from_str("body-markup"));
    caps.push(String::from_str("body-hyperlinks"));
    caps.push(String::from_str("actions"));
    caps.push(String::from_str("icon-static"));
    caps.push(String::from_str("persistence"));
    assert(caps@.map_values(|s: String| s@) =~= capability_names());
    caps
}

/// A `ListNotifications` call: one summary per active notification, in no
/// particular order.
pub fn list_summaries(manager: &NotificationManager) -> (out: Vec<NotificationSummary>)
    ensures
        out@.len() == manager@.active.len(),
        forall|i: int| 0 <= i < out@.len() ==> {
            &&& manager@.active.contains_key((#[trigger] out@[i]).id)
            &&& out@[i]@ == summary_of(manager@.active[out@[i].id], out@[i].timestamp)
        },
        forall|i: int, j: int| 0 <= i < j < out@.len() ==> out@[i].id != out@[j].id,
        forall|k: u32| #[trigger] manager@.active.contains_key(k) ==> exists|i: int|
            0 <= i < out@.len() && out@[i].id == k,
{
    let all = manager.iter();
    let mut out: Vec<NotificationSummary> = Vec::new();
    let n = all.len();
    let mut i: usize = 0;
    while i < n
        invariant
            n == all@.len(),
            i <= n,
            out@.len() == i,
            forall|j: int| 0 <= j < i ==> (#[trigger] out@[j]).id == all@[j].id,
            forall|j: int| 0 <= j < i ==> (#[trigger] out@[j])@ == summary_of(*all@[j], out@[j].timestamp),
        decreases n - i,
    {
        let s = summarize(all[i]);
        out.push(s);
        i = i + 1;
    }
    proof {
        assert forall|k: u32| #[trigger] manager@.active.contains_key(k) implies exists|i: int|
            0 <= i < out@.len() && out@[i].id == k by {
            let i = choose|i: int| 0 <= i < all@.len() && all@[i].id == k;
            assert(out@[i].id == k);
        }
    }
    out
}

/// How long a notification stays, in nanoseconds: its own positive timeout
/// in milliseconds, forever for a timeout of 0, and the default (in
/// milliseconds) for a negative timeout.
pub open spec fn lifetime_nanos(expire_timeout: i32, default_timeout_ms: u64) -> Option<int> {
    if expire_timeout > 0 {
        Some(expire_timeout * 1000000)
    } else if expire_timeout == 0 {
        None
    } else {
        Some(default_timeout_ms * 1000000)
    }
}

/// A notification of that age (in nanoseconds) has expired.
pub open spec fn has_expired(expire_timeout: i32, default_timeout_ms: u64, age_nanos: u128) -> bool {
    match lifetime_nanos(expire_timeout, default_timeout_ms) {
        Some(life) => age_nanos >= life,
        None => false,
    }
}

/// Once a notification has expired it stays expired as it ages.
pub proof fn lemma_expiry_monotone(expire_timeout: i32, default_timeout_ms: u64, age: u128, later: u128)
    requires
        has_expired(expire_timeout, default_timeout_ms, age),
        age <= later,
    ensures
        has_expired(expire_timeout, default_timeout_ms, later),
{
}

/// A notification with a timeout of 0 never expires.
pub proof fn lemma_zero_timeout_never_expires(default_timeout_ms: u64, age: u128)
    ensures
        !has_expired(0, default_timeout_ms, age),
{
}

pub fn is_expired(expire_timeout: i32, default_timeout_ms: u64, age_nanos: u128) -> (r: bool)
    ensures
        r == has_expired(expire_timeout, default_timeout_ms, age_nanos),
{
    if expire_timeout > 0 {
        age_nanos >= (expire_timeout as u128) * 1000000
    } else if expire_timeout == 0 {
        false
    } else {
        age_nanos >= (default_timeout_ms as u128) * 1000000
    }
}

/// A signal announcing that an active notification which could expire
/// has expired and is gone.
pub open spec fn expired_signal(s: DbusSignal, before: Map<u32, Notification>, after: Map<u32, Notification>) -> bool {
    match s {
        DbusSignal::NotificationClosed { id, reason } => {
            &&& reason == CloseReason::Expired
            &&& before.contains_key(id)
            &&& before[id].expire_timeout != 0
            &&& !after.contains_key(id)
        },
        _ => false,
    }
}

/// The active notification `k` is reported, by one of the first `upto`
/// (id, age) pairs, at an age at which it has expired.
pub open spec fn aged_out(
    active: Map<u32, Notification>,
    ages: Seq<(u32, u128)>,
    default_timeout_ms: u64,
    k: u32,
    upto: int,
) -> bool {
    &&& active.contains_key(k)
    &&& exists|j: int|
        0 <= j < upto && (#[trigger] ages[j]).0 == k && has_expired(
            active[k].expire_timeout,
            default_timeout_ms,
            ages[j].1,
        )
}

/// A notification with this timeout expires at any age.
pub open spec fn expires_at_once(expire_timeout: i32, default_timeout_ms: u64) -> bool {
    lifetime_nanos(expire_timeout, default_timeout_ms) == Some(0int)
}

/// Remove every active notification that one of the given (id, age in
/// nanoseconds) pairs shows to have expired, and owe a `NotificationClosed`
/// signal (reason: expired) for each, one per notification.
pub fn expire_aged(
    manager: &mut NotificationManager,
    default_timeout_ms: u64,
    ages: &[(u32, u128)],
) -> (signals: Vec<DbusSignal>)
    ensures
        final(manager)@.next_id == old(manager)@.next_id,
        forall|k: u32| #[trigger] final(manager)@.active.contains_key(k) <==> (old(manager)@.active.contains_key(k)
            && !aged_out(old(manager)@.active, ages@, default_timeout_ms, k, ages@.len() as int)),
        forall|k: u32| #[trigger] final(manager)@.active.contains_key(k) ==> final(manager)@.active[k]
            == old(manager)@.active[k],
        forall|i: int| 0 <= i < signals@.len() ==> {
            &&& (#[trigger] signals@[i]) == (DbusSignal::NotificationClosed {
                id: signals@[i]->NotificationClosed_id,
                reason: CloseReason::Expired,
            })
            &&& old(manager)@.active.contains_key(signals@[i]->NotificationClosed_id)
            &&& !final(manager)@.active.contains_key(signals@[i]->NotificationClosed_id)
        },
        forall|i: int, j: int| 0 <= i < j < signals@.len() ==> signals@[i]->NotificationClosed_id
            != signals@[j]->NotificationClosed_id,
        forall|k: u32| #[trigger] old(manager)@.active.contains_key(k) && !final(manager)@.active.contains_key(k)
            ==> exists|i: int| 0 <= i < signals@.len() && signals@[i]->NotificationClosed_id == k,
{
    let ghost start = manager@.active;
    let mut signals: Vec<DbusSignal> = Vec::new();
    let n = ages.len();
    let mut i: usize = 0;
    while i < n
        invariant
            n == ages@.len(),
            i <= n,
            manager@.next_id == old(manager)@.next_id,
            start == old(manager)@.active,
            forall|k: u32| #[trigger] manager@.active.contains_key(k) <==> (start.contains_key(k)
                && !aged_out(start, ages@, default_timeout_ms, k, i as int)),
            forall|k: u32| #[trigger] manager@.active.contains_key(k) ==> manager@.active[k] == start[k],
            forall|a: int| 0 <= a < signals@.len() ==> {
                &&& (#[trigger] signals@[a]) == (DbusSignal::NotificationClosed {
                    id: signals@[a]->NotificationClosed_id,
                    reason: CloseReason::Expired,
                })
                &&& start.contains_key(signals@[a]->NotificationClosed_id)
                &&& !manager@.active.contains_key(signals@[a]->NotificationClosed_id)
            },
            forall|a: int, b: int| 0 <= a < b < signals@.len() ==> signals@[a]->NotificationClosed_id
                != signals@[b]->NotificationClosed_id,
            forall|k: u32| #[trigger] start.contains_key(k) && !manager@.active.contains_key(k)
                ==> exists|a: int| 0 <= a < signals@.len() && signals@[a]->NotificationClosed_id == k,
        decreases n - i,
    {
        let (id, age) = ages[i];
        let expired = match manager.get(id) {
            Some(cur) => is_expired(cur.expire_timeout, default_timeout_ms, age),
            None => false,
        };
        let ghost before = manager@.active;
        let ghost before_sig = signals@;
        if expired {
            manager.remove(id);
            signals.push(DbusSignal::NotificationClosed { id, reason: CloseReason::Expired });
        }
        proof {
            assert(ages@[i as int] == (id, age));
            assert forall|k: u32| #[trigger] manager@.active.contains_key(k) <==> (start.contains_key(k)
                && !aged_out(start, ages@, default_timeout_ms, k, i + 1)) by {
                if aged_out(start, ages@, default_timeout_ms, k, i + 1) {
                    let j = choose|j: int|
                        0 <= j < i + 1 && (#[trigger] ages@[j]).0 == k && has_expired(
                            start[k].expire_timeout,
                            default_timeout_ms,
                            ages@[j].1,
                        );
                    if j < i {
                        assert(aged_out(start, ages@, default_timeout_ms, k, i as int));
                    }
                }
                if aged_out(start, ages@, default_timeout_ms, k, i as int) {
                    let j = choose|j: int|
                        0 <= j < i && (#[trigger] ages@[j]).0 == k && has_expired(
                            start[k].expire_timeout,
                            default_timeout_ms,
                            ages@[j].1,
                        );
                    assert(aged_out(start, ages@, default_timeout_ms, k, i + 1));
                }
                if k == id && start.contains_key(k) && expired {
                    assert(aged_out(start, ages@, default_timeout_ms, k, i + 1));
                }
            }
            assert forall|a: int, b: int| 0 <= a < b < signals@.len() implies signals@[a]->NotificationClosed_id
                != signals@[b]->NotificationClosed_id by {
                if expired && b == signals@.len() - 1 {
                    assert(!before.contains_key(before_sig[a]->NotificationClosed_id));
                }
            }
            assert forall|a: int| 0 <= a < signals@.len() implies {
                &&& (#[trigger] signals@[a]) == (DbusSignal::NotificationClosed {
                    id: signals@[a]->NotificationClosed_id,
                    reason: CloseReason::Expired,
                })
                &&& start.contains_key(signals@[a]->NotificationClosed_id)
                &&& !manager@.active.contains_key(signals@[a]->NotificationClosed_id)
            } by {
                if a < before_sig.len() {
                    assert(signals@[a] == before_sig[a]);
                }
            }
            assert forall|k: u32| #[trigger] start.contains_key(k) && !manager@.active.contains_key(k)
                implies exists|a: int| 0 <= a < signals@.len() && signals@[a]->NotificationClosed_id == k by {
                if before.contains_key(k) {
                    assert(signals@[signals@.len() - 1]->NotificationClosed_id == k);
                } else {
                    let a = choose|a: int| 0 <= a < before_sig.len() && before_sig[a]->NotificationClosed_id == k;
                    assert(signals@[a] == before_sig[a]);
                }
            }
        }
        i = i + 1;
    }
    signals
}

/// The timer tick: remove every notification whose lifetime has run out
/// (ages are read from the clock) and owe a `NotificationClosed` signal
/// (reason: expired) for each. Notifications that never expire stay;
/// those that expire at any age (a negative timeout with a default of 0)
/// go whatever the clock says.
pub fn expire_notifications(manager: &mut NotificationManager, default_timeout_ms: u64) -> (signals: Vec<DbusSignal>)
    ensures
        final(manager)@.next_id == old(manager)@.next_id,
        forall|i: int| 0 <= i < signals@.len() ==> expired_signal(
            #[trigger] signals@[i],
            old(manager)@.active,
            final(manager)@.active,
        ),
        forall|i: int, j: int| 0 <= i < j < signals@.len() ==> signals@[i]->NotificationClosed_id
            != signals@[j]->NotificationClosed_id,
        forall|k: u32| #[trigger] final(manager)@.active.contains_key(k) ==> old(manager)@.active.contains_key(k)
            && final(manager)@.active[k] == old(manager)@.active[k],
        forall|k: u32| #[trigger] old(manager)@.active.contains_key(k) ==> final(manager)@.active.contains_key(k)
            || exists|i: int| 0 <= i < signals@.len() && signals@[i]->NotificationClosed_id == k,
        forall|k: u32| #[trigger] old(manager)@.active.contains_key(k) && old(manager)@.active[k].expire_timeout == 0
            ==> final(manager)@.active.contains_key(k),
        forall|k: u32| #[trigger] old(manager)@.active.contains_key(k) && expires_at_once(
            old(manager)@.active[k].expire_timeout,
            default_timeout_ms,
        ) ==> !final(manager)@.active.contains_key(k),
{
    let ghost start = manager@.active;
    let mut ages: Vec<(u32, u128)> = Vec::new();
    {
        let all = manager.iter();
        let n = all.len();
        let mut i: usize = 0;
        while i < n
            invariant
                n == all@.len(),
                i <= n,
                ages@.len() == i,
                forall|j: int| 0 <= j < i ==> (#[trigger] ages@[j]).0 == all@[j].id,
            decreases n - i,
        {
            let n_ref = all[i];
            let age = elapsed_nanos(&n_ref.created_at);
            ages.push((n_ref.id, age));
            i = i + 1;
        }
        proof {
            assert forall|k: u32| #[trigger] start.contains_key(k) implies exists|j: int|
                0 <= j < ages@.len() && ages@[j].0 == k by {
                let j = choose|j: int| 0 <= j < all@.len() && all@[j].id == k;
                assert(ages@[j].0 == k);
            }
        }
    }
    let signals = expire_aged(manager, default_timeout_ms, ages.as_slice());
    proof {
        assert forall|i: int| 0 <= i < signals@.len() implies expired_signal(
            #[trigger] signals@[i],
            start,
            manager@.active,
        ) by {
            let k = signals@[i]->NotificationClosed_id;
            assert(aged_out(start, ages@, default_timeout_ms, k, ages@.len() as int));
        }
        assert forall|k: u32| #[trigger] start.contains_key(k) && start[k].expire_timeout == 0
            implies manager@.active.contains_key(k) by {
            assert(!aged_out(start, ages@, default_timeout_ms, k, ages@.len() as int));
        }
        assert forall|k: u32| #[trigger] start.contains_key(k) && expires_at_once(
            start[k].expire_timeout,
            default_timeout_ms,
        ) implies !manager@.active.contains_key(k) by {
            let j = choose|j: int| 0 <= j < ages@.len() && ages@[j].0 == k;
            assert(has_expired(start[k].expire_timeout, default_timeout_ms, ages@[j].1));
            assert(aged_out(start, ages@, default_timeout_ms, k, ages@.len() as int));
        }
    }
    signals
}

/// Height of the notification surface for `count` cards of 80 pixels, 8
/// pixels apart, with 8 pixels of padding above and below; 0 when empty.
pub open spec fn surface_height_for(count: int) -> int {
    if count == 0 {
        0
    } else {
        8 * 2 + count * 80 + (count - 1) * 8
    }
}

pub fn surface_height(count: usize) -> (h: u32)
    requires
        surface_height_for(count as int) <= u32::MAX,
    ensures
        h == surface_height_for(count as int),
{
    let card_height: u32 = 80;
    let gap: u32 = 8;
    let padding: u32 = 8;
    if count == 0 {
        0
    } else {
        let c = count as u32;
        padding * 2 + c * card_height + (c - 1) * gap
    }
}

} // verus!
