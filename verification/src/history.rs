use std::collections::VecDeque;

use vstd::prelude::*;

use crate::action::{urgency_label, urgency_name, NotificationSummary, SummaryView};
use crate::notification::{effective_urgency, elapsed_nanos, whole_seconds, Notification};

verus! {

/// Summaries of past notifications, oldest first, holding at most
/// `max_entries` of them (and at least the newest one).
pub struct NotificationHistory {
    entries: VecDeque<NotificationSummary>,
    max_entries: usize,
}

pub struct HistoryView {
    pub entries: Seq<SummaryView>,
    pub max_entries: usize,
}

/// The summary kept for a notification, given its age in seconds.
pub open spec fn summary_of(n: Notification, timestamp: u64) -> SummaryView {
    SummaryView {
        id: n.id,
        app_name: n.app_name@,
        summary: n.summary@,
        body: n.body@,
        urgency: urgency_name(effective_urgency(n)),
        timestamp,
    }
}

/// Summarise a notification; its age in whole seconds is read from the
/// clock.
pub fn summarize(n: &Notification) -> (s: NotificationSummary)
    ensures
        s@ == summary_of(*n, s.timestamp),
{
    let age = whole_seconds(elapsed_nanos(&n.created_at));
    NotificationSummary {
        id: n.id,
        app_name: n.app_name.clone(),
        summary: n.summary.clone(),
        body: n.body.clone(),
        urgency: urgency_label(n.urgency()),
        timestamp: age,
    }
}

/// The entries after recording `s`: when the history is full the oldest
/// entry is dropped first.
pub open spec fn pushed(entries: Seq<SummaryView>, max_entries: usize, s: SummaryView) -> Seq<SummaryView> {
    let kept = if entries.len() >= max_entries && entries.len() > 0 {
        entries.drop_first()
    } else {
        entries
    };
    kept.push(s)
}

/// The `limit` newest entries, newest first.
pub open spec fn newest_first(entries: Seq<SummaryView>, limit: usize) -> Seq<SummaryView> {
    let n = if limit < entries.len() { limit as int } else { entries.len() as int };
    Seq::new(n as nat, |i: int| entries[entries.len() - 1 - i])
}

impl View for NotificationHistory {
    type V = HistoryView;

    closed spec fn view(&self) -> HistoryView {
        HistoryView {
            entries: self.entries@.map_values(|s: NotificationSummary| s@),
            max_entries: self.max_entries,
        }
    }
}

impl NotificationHistory {
    pub fn new(max_entries: usize) -> (h: Self)
        ensures
            h@.entries == Seq::<SummaryView>::empty(),
            h@.max_entries == max_entries,
    {
        let h = NotificationHistory { entries: VecDeque::with_capacity(max_entries), max_entries };
        assert(h@.entries =~= Seq::<SummaryView>::empty());
        h
    }

    /// Record a notification. Its age in whole seconds is read from the
    /// clock; nothing else about the entry depends on it.
    pub fn push(&mut self, notification: &Notification)
        ensures
            final(self)@.max_entries == old(self)@.max_entries,
            final(self)@.entries == pushed(
                old(self)@.entries,
                old(self)@.max_entries,
                summary_of(*notification, final(self)@.entries.last().timestamp),
            ),
    {
        let ghost before = self.entries@;
        if self.entries.len() >= self.max_entries {
            self.entries.pop_front();
        }
        let ghost kept = self.entries@;
        let summary = summarize(notification);
        let age = summary.timestamp;
        self.entries.push_back(summary);
        proof {
            let f = |s: NotificationSummary| s@;
            assert(kept.map_values(f) =~= if before.len() >= self.max_entries && before.len() > 0 {
                before.map_values(f).drop_first()
            } else {
                before.map_values(f)
            });
            assert(self.entries@.map_values(f) =~= kept.map_values(f).push(summary_of(*notification, age)));
        }
    }

    /// The `limit` most recent entries, newest first.
    pub fn recent(&self, limit: usize) -> (r: Vec<NotificationSummary>)
        ensures
            r@.map_values(|s: NotificationSummary| s@) == newest_first(self@.entries, limit),
    {
        let len = self.entries.len();
        let count = if limit < len { limit } else { len };
        let mut out: Vec<NotificationSummary> = Vec::new();
        let mut i: usize = 0;
        while i < count
            invariant
                len == self.entries@.len(),
                count <= len,
                count == (if limit < len { limit } else { len }),
                i <= count,
                out@.len() == i,
                forall|j: int| 0 <= j < i ==> (#[trigger] out@[j])@ == self.entries@[len - 1 - j]@,
            decreases count - i,
        {
            let s = self.entries[len - 1 - i].duplicate();
            out.push(s);
            i = i + 1;
        }
        assert(out@.map_values(|s: NotificationSummary| s@) =~= newest_first(self@.entries, limit));
        out
    }

    pub fn clear(&mut self)
        ensures
            final(self)@.entries == Seq::<SummaryView>::empty(),
            final(self)@.max_entries == old(self)@.max_entries,
    {
        self.entries.clear();
        assert(self@.entries =~= Seq::<SummaryView>::empty());
    }
}

/// A history that holds no more than its limit (or one entry, for a limit of
/// zero) still does so after recording another notification.
pub proof fn lemma_history_bounded(entries: Seq<SummaryView>, max_entries: usize, s: SummaryView)
    requires
        entries.len() <= max_entries || entries.len() <= 1,
    ensures
        pushed(entries, max_entries, s).len() <= max_entries || pushed(entries, max_entries, s).len() <= 1,
{
}

/// The newest entry of a history is the one recorded last.
pub proof fn lemma_newest_is_last_pushed(entries: Seq<SummaryView>, max_entries: usize, s: SummaryView, limit: usize)
    requires
        limit >= 1,
    ensures
        newest_first(pushed(entries, max_entries, s), limit)[0] == s,
        newest_first(pushed(entries, max_entries, s), limit).len() >= 1,
{
}

/// Recording a notification keeps the earlier entries, newest first, behind
/// the new one; only the oldest may drop out.
pub proof fn lemma_push_keeps_order(entries: Seq<SummaryView>, max_entries: usize, s: SummaryView)
    requires
        entries.len() < max_entries,
    ensures
        pushed(entries, max_entries, s) == entries.push(s),
{
}

/// The entries after recording each of `ss` in turn.
pub open spec fn pushed_all(entries: Seq<SummaryView>, max_entries: usize, ss: Seq<SummaryView>) -> Seq<SummaryView>
    decreases ss.len(),
{
    if ss.len() == 0 {
        entries
    } else {
        pushed(pushed_all(entries, max_entries, ss.drop_last()), max_entries, ss.last())
    }
}

/// How many entries a history keeps: its limit, and one entry for a limit
/// of zero.
pub open spec fn capacity(max_entries: usize) -> int {
    if max_entries == 0 {
        1
    } else {
        max_entries as int
    }
}

/// The oldest of the last `capacity` records among `k` records.
pub open spec fn first_kept(k: int, max_entries: usize) -> int {
    if k > capacity(max_entries) {
        k - capacity(max_entries)
    } else {
        0
    }
}

/// An empty history that records `ss` in turn keeps exactly the last
/// `capacity` of them, oldest first; once full, each record evicts the
/// oldest entry.
pub proof fn lemma_history_keeps_last(max_entries: usize, ss: Seq<SummaryView>)
    ensures
        pushed_all(Seq::empty(), max_entries, ss) == ss.subrange(
            first_kept(ss.len() as int, max_entries),
            ss.len() as int,
        ),
    decreases ss.len(),
{
    if ss.len() > 0 {
        let k = ss.len() as int;
        let prev = ss.drop_last();
        lemma_history_keeps_last(max_entries, prev);
        let r = pushed_all(Seq::empty(), max_entries, prev);
        assert(r == ss.subrange(first_kept(k - 1, max_entries), k - 1));
        if r.len() >= max_entries && r.len() > 0 {
            assert(r.drop_first().push(ss.last()) =~= ss.subrange(first_kept(k, max_entries), k));
        } else {
            assert(r.push(ss.last()) =~= ss.subrange(first_kept(k, max_entries), k));
        }
    }
}

/// Listed newest first, an empty history that recorded `ss` gives the last
/// of them first, as many as it keeps and the limit asks for.
pub proof fn lemma_recent_after_pushes(max_entries: usize, ss: Seq<SummaryView>, limit: usize)
    ensures
        ({
            let kept = ss.len() - first_kept(ss.len() as int, max_entries);
            let r = newest_first(pushed_all(Seq::empty(), max_entries, ss), limit);
            &&& r.len() == (if limit < kept { limit as int } else { kept })
            &&& forall|i: int| 0 <= i < r.len() ==> #[trigger] r[i] == ss[ss.len() - 1 - i]
        }),
{
    lemma_history_keeps_last(max_entries, ss);
}

/// A cleared history fills up to its limit again and no further.
pub proof fn lemma_cleared_history_refills(max_entries: usize, ss: Seq<SummaryView>)
    requires
        max_entries >= 1,
        ss.len() >= max_entries,
    ensures
        pushed_all(Seq::empty(), max_entries, ss).len() == max_entries,
{
    lemma_history_keeps_last(max_entries, ss);
}

} // verus!
