use std::collections::HashMap;

use vstd::prelude::*;

use crate::notification::Notification;

verus! {

broadcast use vstd::std_specs::hash::group_hash_axioms;

/// The notifications currently on screen, keyed by id, and the id that the
/// next notification will get.
pub struct NotificationManager {
    notifications: HashMap<u32, Notification>,
    next_id: u32,
}

/// Abstract state of a `NotificationManager`.
pub struct ManagerView {
    pub active: Map<u32, Notification>,
    pub next_id: u32,
}

/// Every notification is stored under its own id.
pub open spec fn keyed_by_id(m: Map<u32, Notification>) -> bool {
    forall|k: u32| #[trigger] m.contains_key(k) ==> m[k].id == k
}

/// The id handed out after `id`: one more, wrapping from `u32::MAX` to 0.
pub open spec fn following_id(id: u32) -> u32 {
    if id == u32::MAX {
        0
    } else {
        (id + 1) as u32
    }
}

/// `ids` lists the keys of `m` in strictly ascending order.
pub open spec fn sorted_keys(ids: Seq<u32>, m: Map<u32, Notification>) -> bool {
    &&& forall|i: int, j: int| 0 <= i < j < ids.len() ==> ids[i] < ids[j]
    &&& forall|k: u32| #[trigger] ids.contains(k) <==> m.contains_key(k)
}

impl View for NotificationManager {
    type V = ManagerView;

    closed spec fn view(&self) -> ManagerView {
        ManagerView { active: self.notifications@, next_id: self.next_id }
    }
}

impl NotificationManager {
    #[verifier::type_invariant]
    spec fn inv(self) -> bool {
        keyed_by_id(self.notifications@)
    }

    pub fn new() -> (m: Self)
        ensures
            m@.active == Map::<u32, Notification>::empty(),
            m@.active.dom().finite(),
            m@.next_id == 1,
    {
        NotificationManager { notifications: HashMap::new(), next_id: 1 }
    }

    /// Hand out a fresh id: ids count up from 1 and wrap around after
    /// `u32::MAX`.
    pub fn allocate_id(&mut self) -> (id: u32)
        ensures
            id == old(self)@.next_id,
            final(self)@.next_id == following_id(id),
            final(self)@.active == old(self)@.active,
    {
        proof {
            use_type_invariant(&*self);
        }
        let id = self.next_id;
        self.next_id = self.next_id.wrapping_add(1);
        id
    }

    /// Store a notification under its id, replacing any notification with
    /// the same id, and return the id.
    pub fn add(&mut self, notification: Notification) -> (id: u32)
        ensures
            id == notification.id,
            final(self)@.active == old(self)@.active.insert(notification.id, notification),
            final(self)@.active.dom().finite(),
            final(self)@.active.len() == old(self)@.active.len() + (if old(self)@.active.contains_key(
                notification.id,
            ) {
                0int
            } else {
                1int
            }),
            final(self)@.next_id == old(self)@.next_id,
    {
        proof {
            assert(self.notifications@.dom().finite());
        }
        proof {
            use_type_invariant(&*self);
        }
        let id = notification.id;
        let mut map = HashMap::new();
        std::mem::swap(&mut map, &mut self.notifications);
        map.insert(id, notification);
        self.notifications = map;
        id
    }

    pub fn remove(&mut self, id: u32) -> (r: Option<Notification>)
        ensures
            final(self)@.active == old(self)@.active.remove(id),
            final(self)@.active.dom().finite(),
            final(self)@.active.len() == old(self)@.active.len() - (if r is Some {
                1int
            } else {
                0int
            }),
            final(self)@.next_id == old(self)@.next_id,
            match r {
                Some(n) => old(self)@.active.contains_key(id) && n == old(self)@.active[id],
                None => !old(self)@.active.contains_key(id),
            },
    {
        proof {
            use_type_invariant(&*self);
            assert(self.notifications@.dom().finite());
        }
        let mut map = HashMap::new();
        std::mem::swap(&mut map, &mut self.notifications);
        let r = map.remove(&id);
        self.notifications = map;
        r
    }

    pub fn get(&self, id: u32) -> (r: Option<&Notification>)
        ensures
            match r {
                Some(n) => self@.active.contains_key(id) && *n == self@.active[id] && n.id == id,
                None => !self@.active.contains_key(id),
            },
    {
        proof {
            use_type_invariant(self);
        }
        self.notifications.get(&id)
    }

    pub fn active_count(&self) -> (n: usize)
        ensures
            n == self@.active.len(),
            self@.active.dom().finite(),
    {
        proof {
            assert(self.notifications@.dom().finite());
        }
        self.notifications.len()
    }

    /// The ids of the active notifications, in ascending order.
    pub fn active_ids(&self) -> (ids: Vec<u32>)
        ensures
            sorted_keys(ids@, self@.active),
    {
        let mut out: Vec<u32> = Vec::new();
        let ghost mut consumed: Seq<u32> = Seq::empty();
        for k in it: self.notifications.keys()
            invariant
                it.seq().unref().to_set() == self.notifications@.dom(),
                it.seq().no_duplicates(),
                consumed == it.seq().unref().take(it.index() as int),
                it.index() == it.seq().len() ==> consumed == it.seq().unref(),
                forall|i: int, j: int| 0 <= i < j < out@.len() ==> out@[i] < out@[j],
                forall|x: u32| #[trigger] out@.contains(x) <==> consumed.contains(x),
        {
            let ghost idx = it.index();
            assert(*k == it.seq().unref()[idx]);
            assert(!consumed.contains(*k));
            insert_sorted(&mut out, *k);
            proof {
                let before = consumed;
                consumed = consumed.push(*k);
                assert forall|y: u32| #[trigger] consumed.contains(y) <==> (before.contains(y) || y == *k) by {
                    if before.contains(y) {
                        let i = choose|i: int| 0 <= i < before.len() && before[i] == y;
                        assert(consumed[i] == y);
                    }
                    if y == *k {
                        assert(consumed[before.len() as int] == y);
                    }
                }
            }
            assert(it.seq().unref().take(idx + 1) =~= consumed);
            assert(idx + 1 == it.seq().len() ==> it.seq().unref().take(idx + 1) =~= it.seq().unref());
        }
        assert forall|x: u32| #[trigger] out@.contains(x) <==> self@.active.contains_key(x) by {
            if consumed.contains(x) {
                assert(consumed.to_set().contains(x));
            }
            if self@.active.contains_key(x) {
                assert(consumed.to_set().contains(x));
            }
        }
        out
    }
}

impl NotificationManager {
    /// The active notifications, each once, in no particular order.
    pub fn iter(&self) -> (r: Vec<&Notification>)
        ensures
            r@.len() == self@.active.len(),
            forall|i: int| 0 <= i < r@.len() ==> {
                &&& self@.active.contains_key((#[trigger] r@[i]).id)
                &&& *r@[i] == self@.active[r@[i].id]
            },
            forall|i: int, j: int| 0 <= i < j < r@.len() ==> r@[i].id != r@[j].id,
            forall|k: u32| #[trigger] self@.active.contains_key(k) ==> exists|i: int|
                0 <= i < r@.len() && r@[i].id == k,
    {
        proof {
            use_type_invariant(self);
        }
        let mut out: Vec<&Notification> = Vec::new();
        let ghost mut consumed: Seq<u32> = Seq::empty();
        for k in it: self.notifications.keys()
            invariant
                keyed_by_id(self.notifications@),
                it.seq().unref().to_set() == self.notifications@.dom(),
                it.seq().len() == self.notifications@.dom().len(),
                it.seq().no_duplicates(),
                consumed == it.seq().unref().take(it.index() as int),
                it.index() == it.seq().len() ==> consumed == it.seq().unref(),
                out@.len() == consumed.len(),
                forall|i: int| 0 <= i < out@.len() ==> {
                    &&& (#[trigger] out@[i]).id == consumed[i]
                    &&& self.notifications@.contains_key(consumed[i])
                    &&& *out@[i] == self.notifications@[consumed[i]]
                },
        {
            let ghost idx = it.index();
            assert(*k == it.seq().unref()[idx]);
            assert(it.seq().unref().to_set().contains(*k));
            let n = self.notifications.get(k).unwrap();
            out.push(n);
            proof {
                consumed = consumed.push(*k);
            }
            assert(it.seq().unref().take(idx + 1) =~= consumed);
            assert(idx + 1 == it.seq().len() ==> it.seq().unref().take(idx + 1) =~= it.seq().unref());
        }
        assert forall|i: int, j: int| 0 <= i < j < out@.len() implies out@[i].id != out@[j].id by {
            assert(consumed[i] != consumed[j]);
        }
        assert forall|k: u32| #[trigger] self@.active.contains_key(k) implies exists|i: int|
            0 <= i < out@.len() && out@[i].id == k by {
            assert(consumed.to_set().contains(k));
            let i = choose|i: int| 0 <= i < consumed.len() && consumed[i] == k;
            assert(out@[i].id == k);
        }
        out
    }
}

/// What is stored can be read back: after storing a notification, its id
/// maps to it.
pub proof fn lemma_add_then_get(active: Map<u32, Notification>, n: Notification)
    ensures
        active.insert(n.id, n).contains_key(n.id),
        active.insert(n.id, n)[n.id] == n,
        forall|k: u32| k != n.id ==> (#[trigger] active.insert(n.id, n).contains_key(k)) == active.contains_key(k),
{
}

/// Removing a notification that was just stored leaves the others as they
/// were.
pub proof fn lemma_remove_undoes_add(active: Map<u32, Notification>, n: Notification)
    requires
        !active.contains_key(n.id),
    ensures
        active.insert(n.id, n).remove(n.id) == active,
{
    assert(active.insert(n.id, n).remove(n.id) =~= active);
}

/// Ids are handed out in increasing order until the counter wraps.
pub proof fn lemma_ids_increase(id: u32)
    ensures
        id < u32::MAX ==> following_id(id) == id + 1,
        following_id(id) != id,
{
}

/// The id handed out by the `i`-th call of `allocate_id` (counting from 0)
/// on a manager whose next id is `start`.
pub open spec fn id_after(start: u32, i: nat) -> u32
    decreases i,
{
    if i == 0 {
        start
    } else {
        following_id(id_after(start, (i - 1) as nat))
    }
}

proof fn lemma_id_after_value(start: u32, i: nat)
    requires
        i < 0x1_0000_0000,
    ensures
        id_after(start, i) == (if start + i < 0x1_0000_0000 { start + i } else { start + i - 0x1_0000_0000 }),
    decreases i,
{
    if i > 0 {
        lemma_id_after_value(start, (i - 1) as nat);
    }
}

/// Up to 2^32 successive calls of `allocate_id` hand out pairwise distinct
/// ids, each one more than the one before (wrapping after `u32::MAX`); a
/// new manager starts at 1.
pub proof fn lemma_allocated_ids_distinct(start: u32, i: nat, j: nat)
    requires
        i < j < 0x1_0000_0000,
    ensures
        id_after(start, i) != id_after(start, j),
        id_after(start, j) == following_id(id_after(start, (j - 1) as nat)),
        id_after(1, 0) == 1,
{
    lemma_id_after_value(start, i);
    lemma_id_after_value(start, j);
}

/// Put `x` into a strictly ascending list that does not hold it yet.
fn insert_sorted(v: &mut Vec<u32>, x: u32)
    requires
        forall|i: int, j: int| 0 <= i < j < old(v)@.len() ==> old(v)@[i] < old(v)@[j],
        !old(v)@.contains(x),
    ensures
        forall|i: int, j: int| 0 <= i < j < final(v)@.len() ==> final(v)@[i] < final(v)@[j],
        forall|y: u32| #[trigger] final(v)@.contains(y) <==> (old(v)@.contains(y) || y == x),
{
    let n = v.len();
    let mut p: usize = 0;
    while p < n && v[p] < x
        invariant
            n == v@.len(),
            p <= n,
            forall|i: int| 0 <= i < p ==> v@[i] < x,
        decreases n - p,
    {
        p = p + 1;
    }
    let ghost before = v@;
    v.insert(p, x);
    proof {
        assert forall|y: u32| #[trigger] v@.contains(y) <==> (before.contains(y) || y == x) by {
            if v@.contains(y) {
                let i = choose|i: int| 0 <= i < v@.len() && v@[i] == y;
                if i < p {
                    assert(before[i] == y);
                } else if i > p {
                    assert(before[i - 1] == y);
                }
            }
            if before.contains(y) {
                let i = choose|i: int| 0 <= i < before.len() && before[i] == y;
                if i < p {
                    assert(v@[i] == y);
                } else {
                    assert(v@[i + 1] == y);
                }
            }
            if y == x {
                assert(v@[p as int] == x);
            }
        }
    }
}

} // verus!
