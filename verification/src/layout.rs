use vstd::prelude::*;

use crate::notification::{effective_urgency, Notification, Urgency};
use crate::text::{contains_seq, same_text, text_contains};

verus! {

broadcast use vstd::std_specs::vec::group_vec_axioms;

#[derive(Debug, Clone, Copy, PartialEq, Eq, Structural)]
pub enum FlexDirection {
    Row,
    Column,
}

#[derive(Debug, Clone, Copy, PartialEq, Eq, Structural)]
pub enum FlexAlign {
    Start,
    Center,
    End,
    Stretch,
}

#[derive(Debug, Clone, Copy, PartialEq, Eq, Structural)]
pub enum TextKind {
    Summary,
    Body,
    AppName,
}

#[derive(Debug, Clone, Copy, PartialEq, Eq, Structural)]
pub enum Ellipsize {
    NoEllipsis,
    Start,
    Middle,
    End,
}

#[derive(Debug, Clone, Copy, PartialEq, Eq, Structural)]
pub enum FontWeight {
    Light,
    Regular,
    Medium,
    Semibold,
    Bold,
}

#[derive(Debug, Clone, Copy, PartialEq, Eq, Structural)]
pub enum ImageKind {
    AppIcon,
    ImageData,
}

/// A condition on a notification, used by conditional layout elements.
#[derive(Debug)]
pub enum Predicate {
    Has(String),
    HasHint(String),
    Urgency(Urgency),
    App(String),
    Any(Vec<Predicate>),
    All(Vec<Predicate>),
    Not(Box<Predicate>),
}

/// `Has(field)`: the named field of the notification is non-empty. Unknown
/// field names never hold.
pub open spec fn has_field(n: Notification, field: Seq<char>) -> bool {
    if field == "body"@ {
        n.body@.len() > 0
    } else if field == "icon"@ || field == "app_icon"@ {
        n.app_icon@.len() > 0
    } else if field == "actions"@ {
        n.actions@.len() > 0
    } else if field == "summary"@ {
        n.summary@.len() > 0
    } else if field == "app_name"@ {
        n.app_name@.len() > 0
    } else {
        false
    }
}

/// `HasHint(key)`: the notification carries the named hint. The decoded
/// hints are looked up by their own names; any other key is looked up among
/// the extra string hints.
pub open spec fn has_hint(n: Notification, key: Seq<char>) -> bool {
    if key == "value"@ {
        n.hints.value is Some
    } else if key == "urgency"@ {
        n.hints.urgency is Some
    } else if key == "category"@ {
        n.hints.category is Some
    } else if key == "image-path"@ {
        n.hints.image_path is Some
    } else {
        n.hints.extra@.dom().contains(key)
    }
}

/// `App(pattern)`: the pattern occurs in the application name or in the
/// desktop entry.
pub open spec fn app_matches(n: Notification, pattern: Seq<char>) -> bool {
    contains_seq(n.app_name@, pattern) || match n.hints.desktop_entry {
        Some(e) => contains_seq(e@, pattern),
        None => false,
    }
}

/// Whether a predicate holds of a notification.
pub open spec fn predicate_holds(p: Predicate, n: Notification) -> bool
    decreases p,
{
    match p {
        Predicate::Has(field) => has_field(n, field@),
        Predicate::HasHint(key) => has_hint(n, key@),
        Predicate::Urgency(u) => effective_urgency(n) == u,
        Predicate::App(pattern) => app_matches(n, pattern@),
        Predicate::Any(ps) => any_holds(ps@, n),
        Predicate::All(ps) => all_hold(ps@, n),
        Predicate::Not(q) => !predicate_holds(*q, n),
    }
}

/// Some predicate of the list holds.
pub open spec fn any_holds(ps: Seq<Predicate>, n: Notification) -> bool
    decreases ps,
{
    if ps.len() == 0 {
        false
    } else {
        predicate_holds(ps[0], n) || any_holds(ps.drop_first(), n)
    }
}

/// Every predicate of the list holds.
pub open spec fn all_hold(ps: Seq<Predicate>, n: Notification) -> bool
    decreases ps,
{
    if ps.len() == 0 {
        true
    } else {
        predicate_holds(ps[0], n) && all_hold(ps.drop_first(), n)
    }
}

/// `Any` holds exactly when one of its predicates does.
pub proof fn lemma_any_holds(ps: Seq<Predicate>, n: Notification)
    ensures
        any_holds(ps, n) <==> exists|i: int| 0 <= i < ps.len() && #[trigger] predicate_holds(ps[i], n),
    decreases ps.len(),
{
    if ps.len() > 0 {
        let t = ps.drop_first();
        lemma_any_holds(t, n);
        assert(any_holds(ps, n) == (predicate_holds(ps[0], n) || any_holds(t, n)));
        if any_holds(ps, n) && !predicate_holds(ps[0], n) {
            let j = choose|j: int| 0 <= j < t.len() && #[trigger] predicate_holds(t[j], n);
            assert(ps[j + 1] == t[j]);
            assert(predicate_holds(ps[j + 1], n));
        }
        if exists|i: int| 0 <= i < ps.len() && #[trigger] predicate_holds(ps[i], n) {
            let i = choose|i: int| 0 <= i < ps.len() && #[trigger] predicate_holds(ps[i], n);
            if i > 0 {
                assert(t[i - 1] == ps[i]);
                assert(predicate_holds(t[i - 1], n));
            }
        }
    }
}

/// `All` holds exactly when each of its predicates does.
pub proof fn lemma_all_hold(ps: Seq<Predicate>, n: Notification)
    ensures
        all_hold(ps, n) <==> forall|i: int| 0 <= i < ps.len() ==> #[trigger] predicate_holds(ps[i], n),
    decreases ps.len(),
{
    if ps.len() > 0 {
        let t = ps.drop_first();
        lemma_all_hold(t, n);
        assert(all_hold(ps, n) == (predicate_holds(ps[0], n) && all_hold(t, n)));
        if forall|i: int| 0 <= i < ps.len() ==> #[trigger] predicate_holds(ps[i], n) {
            assert forall|i: int| 0 <= i < t.len() implies #[trigger] predicate_holds(t[i], n) by {
                assert(ps[i + 1] == t[i]);
                assert(predicate_holds(ps[i + 1], n));
            }
            assert(predicate_holds(ps[0], n));
        }
        if all_hold(ps, n) {
            assert forall|i: int| 0 <= i < ps.len() implies #[trigger] predicate_holds(ps[i], n) by {
                if i > 0 {
                    assert(t[i - 1] == ps[i]);
                    assert(predicate_holds(t[i - 1], n));
                }
            }
        }
    }
}

/// `Urgency(u)` holds of a notification exactly when its urgency hint is
/// `u`, or when it has no urgency hint and `u` is normal; it never holds
/// when the notification's urgency is another level.
pub proof fn lemma_urgency_predicate(u: Urgency, n: Notification)
    ensures
        predicate_holds(Predicate::Urgency(u), n) <==> match n.hints.urgency {
            Some(v) => v == u,
            None => u == Urgency::Normal,
        },
        forall|v: Urgency| #[trigger] n.hints.urgency == Some(v) && v != u ==> !predicate_holds(
            Predicate::Urgency(u),
            n,
        ),
        n.hints.urgency is None && u != Urgency::Normal ==> !predicate_holds(Predicate::Urgency(u), n),
{
}

/// `Has(field)` holds exactly when the named field is non-empty; `icon` and
/// `app_icon` both name the icon, and any other name never holds.
pub proof fn lemma_has_predicate(field: String, n: Notification)
    ensures
        field@ == "body"@ ==> (predicate_holds(Predicate::Has(field), n) <==> n.body@.len() > 0),
        field@ == "summary"@ ==> (predicate_holds(Predicate::Has(field), n) <==> n.summary@.len() > 0),
        field@ == "app_name"@ ==> (predicate_holds(Predicate::Has(field), n) <==> n.app_name@.len() > 0),
        field@ == "icon"@ || field@ == "app_icon"@ ==> (predicate_holds(Predicate::Has(field), n)
            <==> n.app_icon@.len() > 0),
        field@ == "actions"@ ==> (predicate_holds(Predicate::Has(field), n) <==> n.actions@.len() > 0),
        field@ != "body"@ && field@ != "summary"@ && field@ != "app_name"@ && field@ != "icon"@ && field@
            != "app_icon"@ && field@ != "actions"@ ==> !predicate_holds(Predicate::Has(field), n),
{
    reveal_strlit("body");
    reveal_strlit("summary");
    reveal_strlit("app_name");
    reveal_strlit("icon");
    reveal_strlit("app_icon");
    reveal_strlit("actions");
    assert("summary"@.len() != "body"@.len() && "summary"@.len() != "icon"@.len() && "summary"@.len()
        != "app_icon"@.len());
    assert("summary"@[0] != "actions"@[0]);
    assert("icon"@[0] != "body"@[0] && "app_icon"@.len() != "body"@.len());
    assert("app_name"@.len() != "body"@.len() && "app_name"@.len() != "icon"@.len() && "app_name"@.len()
        != "summary"@.len());
    assert("app_name"@[4] != "app_icon"@[4]);
}

/// `HasHint(key)` holds exactly when the notification carries that hint:
/// `value`, `urgency`, `category` and `image-path` by their decoded fields,
/// any other key among the extra string hints.
pub proof fn lemma_has_hint_predicate(key: String, n: Notification)
    ensures
        key@ == "value"@ ==> (predicate_holds(Predicate::HasHint(key), n) <==> n.hints.value is Some),
        key@ == "urgency"@ ==> (predicate_holds(Predicate::HasHint(key), n) <==> n.hints.urgency is Some),
        key@ == "category"@ ==> (predicate_holds(Predicate::HasHint(key), n) <==> n.hints.category is Some),
        key@ == "image-path"@ ==> (predicate_holds(Predicate::HasHint(key), n) <==> n.hints.image_path is Some),
        key@ != "value"@ && key@ != "urgency"@ && key@ != "category"@ && key@ != "image-path"@ ==> (
        predicate_holds(Predicate::HasHint(key), n) <==> n.hints.extra@.dom().contains(key@)),
{
    reveal_strlit("value");
    reveal_strlit("urgency");
    reveal_strlit("category");
    reveal_strlit("image-path");
    assert("urgency"@.len() != "value"@.len());
    assert("category"@.len() != "value"@.len() && "category"@.len() != "urgency"@.len());
    assert("image-path"@.len() != "value"@.len() && "image-path"@.len() != "urgency"@.len()
        && "image-path"@.len() != "category"@.len());
}

/// `Not(p)` holds exactly when `p` does not.
pub proof fn lemma_not_predicate(p: Predicate, n: Notification)
    ensures
        predicate_holds(Predicate::Not(Box::new(p)), n) == !predicate_holds(p, n),
{
}

/// Negating twice changes nothing.
pub proof fn lemma_double_negation(p: Predicate, n: Notification)
    ensures
        predicate_holds(Predicate::Not(Box::new(Predicate::Not(Box::new(p)))), n) == predicate_holds(p, n),
{
    let inner = Predicate::Not(Box::new(p));
    assert(predicate_holds(inner, n) == !predicate_holds(p, n));
    assert(predicate_holds(Predicate::Not(Box::new(inner)), n) == !predicate_holds(inner, n));
}

/// `Any` of no predicates never holds; `All` of none always does.
pub proof fn lemma_empty_combinators(ps: Vec<Predicate>, n: Notification)
    requires
        ps@.len() == 0,
    ensures
        !predicate_holds(Predicate::Any(ps), n),
        predicate_holds(Predicate::All(ps), n),
{
    assert(predicate_holds(Predicate::Any(ps), n) == any_holds(ps@, n));
    assert(predicate_holds(Predicate::All(ps), n) == all_hold(ps@, n));
    assert(!any_holds(ps@, n));
    assert(all_hold(ps@, n));
}

/// `Any` and `All` of a single predicate hold exactly when it does.
pub proof fn lemma_single_combinators(ps: Vec<Predicate>, n: Notification)
    requires
        ps@.len() == 1,
    ensures
        predicate_holds(Predicate::Any(ps), n) == predicate_holds(ps@[0], n),
        predicate_holds(Predicate::All(ps), n) == predicate_holds(ps@[0], n),
{
    let t = ps@.drop_first();
    assert(t.len() == 0);
    assert(predicate_holds(Predicate::Any(ps), n) == any_holds(ps@, n));
    assert(predicate_holds(Predicate::All(ps), n) == all_hold(ps@, n));
    assert(!any_holds(t, n));
    assert(all_hold(t, n));
    assert(any_holds(ps@, n) == (predicate_holds(ps@[0], n) || any_holds(t, n)));
    assert(all_hold(ps@, n) == (predicate_holds(ps@[0], n) && all_hold(t, n)));
}

/// `b` has the same structure as `a`: the same variants, strings,
/// urgencies and lists, element by element.
pub open spec fn same_predicate(a: Predicate, b: Predicate) -> bool
    decreases a,
{
    match a {
        Predicate::Any(ps) => b is Any && ps@.len() == b->Any_0@.len() && forall|i: int|
            0 <= i < ps@.len() ==> same_predicate(#[trigger] ps@[i], b->Any_0@[i]),
        Predicate::All(ps) => b is All && ps@.len() == b->All_0@.len() && forall|i: int|
            0 <= i < ps@.len() ==> same_predicate(#[trigger] ps@[i], b->All_0@[i]),
        Predicate::Not(q) => b is Not && same_predicate(*q, *b->Not_0),
        _ => b == a,
    }
}

impl Predicate {
    /// A copy of the predicate, of the same structure; it holds of exactly
    /// the notifications that the original holds of.
    pub fn duplicate(&self) -> (r: Predicate)
        ensures
            same_predicate(*self, r),
            forall|n: Notification| predicate_holds(r, n) == predicate_holds(*self, n),
        decreases self,
    {
        match self {
            Predicate::Has(s) => Predicate::Has(s.clone()),
            Predicate::HasHint(s) => Predicate::HasHint(s.clone()),
            Predicate::Urgency(u) => Predicate::Urgency(*u),
            Predicate::App(s) => Predicate::App(s.clone()),
            Predicate::Any(ps) => {
                let qs = Self::duplicate_all(self, ps);
                proof {
                    assert forall|n: Notification| any_holds(qs@, n) == any_holds(ps@, n) by {
                        lemma_any_holds(qs@, n);
                        lemma_any_holds(ps@, n);
                        if exists|i: int| 0 <= i < ps@.len() && #[trigger] predicate_holds(ps@[i], n) {
                            let i = choose|i: int| 0 <= i < ps@.len() && #[trigger] predicate_holds(ps@[i], n);
                            assert(predicate_holds(qs@[i], n));
                        }
                    }
                }
                let r = Predicate::Any(qs);
                assert(forall|n: Notification| predicate_holds(r, n) == any_holds(qs@, n));
                r
            },
            Predicate::All(ps) => {
                let qs = Self::duplicate_all(self, ps);
                proof {
                    assert forall|n: Notification| all_hold(qs@, n) == all_hold(ps@, n) by {
                        lemma_all_hold(qs@, n);
                        lemma_all_hold(ps@, n);
                        if all_hold(qs@, n) {
                            assert forall|i: int| 0 <= i < ps@.len() implies #[trigger] predicate_holds(ps@[i], n) by {
                                assert(predicate_holds(qs@[i], n));
                            }
                        }
                        if all_hold(ps@, n) {
                            assert forall|i: int| 0 <= i < qs@.len() implies #[trigger] predicate_holds(qs@[i], n) by {
                                assert(predicate_holds(ps@[i], n));
                            }
                        }
                    }
                }
                let r = Predicate::All(qs);
                assert(forall|n: Notification| predicate_holds(r, n) == all_hold(qs@, n));
                r
            },
            Predicate::Not(p) => {
                let q = p.duplicate();
                let r = Predicate::Not(Box::new(q));
                assert(forall|n: Notification| predicate_holds(r, n) == !predicate_holds(q, n));
                r
            },
        }
    }

    fn duplicate_all(parent: &Predicate, ps: &Vec<Predicate>) -> (r: Vec<Predicate>)
        requires
            *parent == Predicate::Any(*ps) || *parent == Predicate::All(*ps),
        ensures
            r@.len() == ps@.len(),
            forall|i: int| 0 <= i < ps@.len() ==> same_predicate(#[trigger] ps@[i], r@[i]),
            forall|i: int, n: Notification| 0 <= i < ps@.len() ==>
                #[trigger] predicate_holds(r@[i], n) == predicate_holds(ps@[i], n),
        decreases parent, 0nat,
    {
        let mut out: Vec<Predicate> = Vec::new();
        let len = ps.len();
        let mut i: usize = 0;
        while i < len
            invariant
                len == ps@.len(),
                i <= len,
                out@.len() == i,
                *parent == Predicate::Any(*ps) || *parent == Predicate::All(*ps),
                forall|j: int| 0 <= j < i ==> same_predicate(#[trigger] ps@[j], out@[j]),
                forall|j: int, n: Notification| 0 <= j < i ==>
                    #[trigger] predicate_holds(out@[j], n) == predicate_holds(ps@[j], n),
            decreases len - i,
        {
            proof {
                if *parent is Any {
                    assert(decreases_to!(*parent => parent->Any_0));
                } else {
                    assert(decreases_to!(*parent => parent->All_0));
                }
                assert(decreases_to!(*ps => ps[i as int]));
            }
            let c = ps[i].duplicate();
            out.push(c);
            i = i + 1;
        }
        out
    }
}

impl Clone for Predicate {
    fn clone(&self) -> (r: Self)
        ensures
            forall|n: Notification| predicate_holds(r, n) == predicate_holds(*self, n),
    {
        self.duplicate()
    }
}

fn eval_has(field: &String, notification: &Notification) -> (r: bool)
    ensures
        r == has_field(*notification, field@),
{
    let f = field.as_str();
    if same_text(f, "body") {
        !notification.body.as_str().is_empty()
    } else if same_text(f, "icon") || same_text(f, "app_icon") {
        !notification.app_icon.as_str().is_empty()
    } else if same_text(f, "actions") {
        notification.actions.len() != 0
    } else if same_text(f, "summary") {
        !notification.summary.as_str().is_empty()
    } else if same_text(f, "app_name") {
        !notification.app_name.as_str().is_empty()
    } else {
        false
    }
}

fn eval_has_hint(key: &String, notification: &Notification) -> (r: bool)
    ensures
        r == has_hint(*notification, key@),
{
    let k = key.as_str();
    if same_text(k, "value") {
        notification.hints.value.is_some()
    } else if same_text(k, "urgency") {
        notification.hints.urgency.is_some()
    } else if same_text(k, "category") {
        notification.hints.category.is_some()
    } else if same_text(k, "image-path") {
        notification.hints.image_path.is_some()
    } else {
        notification.hints.extra.contains_key(k)
    }
}

fn eval_app(pattern: &String, notification: &Notification) -> (r: bool)
    ensures
        r == app_matches(*notification, pattern@),
{
    if text_contains(notification.app_name.as_str(), pattern.as_str()) {
        return true;
    }
    match &notification.hints.desktop_entry {
        Some(e) => text_contains(e.as_str(), pattern.as_str()),
        None => false,
    }
}

/// Evaluate a layout predicate against a notification.
pub fn evaluate_predicate(pred: &Predicate, notification: &Notification) -> (r: bool)
    ensures
        r == predicate_holds(*pred, *notification),
    decreases pred,
{
    match pred {
        Predicate::Has(field) => eval_has(field, notification),
        Predicate::HasHint(key) => eval_has_hint(key, notification),
        Predicate::Urgency(u) => notification.urgency() == *u,
        Predicate::App(pattern) => eval_app(pattern, notification),
        Predicate::Any(preds) => {
            let n = preds.len();
            let mut i: usize = 0;
            while i < n
                invariant
                    n == preds@.len(),
                    i <= n,
                    *pred == Predicate::Any(*preds),
                    forall|j: int| 0 <= j < i ==> !#[trigger] predicate_holds(preds@[j], *notification),
                decreases n - i,
            {
                proof {
                    assert(decreases_to!(*pred => pred->Any_0));
                    assert(decreases_to!(*preds => preds[i as int]));
                }
                if evaluate_predicate(&preds[i], notification) {
                    proof {
                        lemma_any_holds(preds@, *notification);
                    }
                    return true;
                }
                i = i + 1;
            }
            proof {
                lemma_any_holds(preds@, *notification);
            }
            false
        },
        Predicate::All(preds) => {
            let n = preds.len();
            let mut i: usize = 0;
            while i < n
                invariant
                    n == preds@.len(),
                    i <= n,
                    *pred == Predicate::All(*preds),
                    forall|j: int| 0 <= j < i ==> #[trigger] predicate_holds(preds@[j], *notification),
                decreases n - i,
            {
                proof {
                    assert(decreases_to!(*pred => pred->All_0));
                    assert(decreases_to!(*preds => preds[i as int]));
                }
                if !evaluate_predicate(&preds[i], notification) {
                    proof {
                        lemma_all_hold(preds@, *notification);
                    }
                    return false;
                }
                i = i + 1;
            }
            proof {
                lemma_all_hold(preds@, *notification);
            }
            true
        },
        Predicate::Not(p) => !evaluate_predicate(p, notification),
    }
}

} // verus!
