use vstd::prelude::*;

use crate::action::OwnedHintValue;
use crate::notification::{
    empty_hints, urgency_of_byte, HintsView, NotificationAction, NotificationHints, Urgency,
};
use crate::text::same_text;

verus! {

/// What one `(key, value)` hint does to the decoded hints. Known keys with
/// the expected value type set their field; any other string-valued hint is
/// kept among the extra hints; everything else is ignored.
pub open spec fn hint_step(h: HintsView, key: Seq<char>, value: OwnedHintValue) -> HintsView {
    match value {
        OwnedHintValue::Byte(b) => if key == "urgency"@ {
            HintsView { urgency: Some(urgency_of_byte(b)), ..h }
        } else {
            h
        },
        OwnedHintValue::String(s) => if key == "category"@ {
            HintsView { category: Some(s@), ..h }
        } else if key == "desktop-entry"@ {
            HintsView { desktop_entry: Some(s@), ..h }
        } else if key == "image-path"@ {
            HintsView { image_path: Some(s@), ..h }
        } else if key == "sound-file"@ {
            HintsView { sound_file: Some(s@), ..h }
        } else if key == "sound-name"@ {
            HintsView { sound_name: Some(s@), ..h }
        } else {
            HintsView { extra: h.extra.insert(key, s@), ..h }
        },
        OwnedHintValue::Bool(b) => if key == "suppress-sound"@ {
            HintsView { suppress_sound: b, ..h }
        } else if key == "transient"@ {
            HintsView { transient: b, ..h }
        } else if key == "resident"@ {
            HintsView { resident: b, ..h }
        } else if key == "action-icons"@ {
            HintsView { action_icons: b, ..h }
        } else {
            h
        },
        OwnedHintValue::Int32(v) => if key == "value"@ {
            HintsView { value: Some(v), ..h }
        } else {
            h
        },
        OwnedHintValue::ImageData { .. } => h,
    }
}

/// The hints decoded from a list of raw hints, applied in order.
pub open spec fn decoded_hints(hints: Seq<(String, OwnedHintValue)>) -> HintsView
    decreases hints.len(),
{
    if hints.len() == 0 {
        empty_hints()
    } else {
        let last = hints.last();
        hint_step(decoded_hints(hints.drop_last()), last.0@, last.1)
    }
}

fn apply_hint(result: &mut NotificationHints, key: &String, value: &OwnedHintValue)
    ensures
        final(result)@ == hint_step(old(result)@, key@, *value),
{
    let k = key.as_str();
    match value {
        OwnedHintValue::Byte(b) => {
            if same_text(k, "urgency") {
                result.urgency = Some(Urgency::from_byte(*b));
            }
        },
        OwnedHintValue::String(s) => {
            if same_text(k, "category") {
                result.category = Some(s.clone());
            } else if same_text(k, "desktop-entry") {
                result.desktop_entry = Some(s.clone());
            } else if same_text(k, "image-path") {
                result.image_path = Some(s.clone());
            } else if same_text(k, "sound-file") {
                result.sound_file = Some(s.clone());
            } else if same_text(k, "sound-name") {
                result.sound_name = Some(s.clone());
            } else {
                result.extra.insert(key.clone(), s.clone());
            }
        },
        OwnedHintValue::Bool(b) => {
            if same_text(k, "suppress-sound") {
                result.suppress_sound = *b;
            } else if same_text(k, "transient") {
                result.transient = *b;
            } else if same_text(k, "resident") {
                result.resident = *b;
            } else if same_text(k, "action-icons") {
                result.action_icons = *b;
            }
        },
        OwnedHintValue::Int32(v) => {
            if same_text(k, "value") {
                result.value = Some(*v);
            }
        },
        OwnedHintValue::ImageData { .. } => {},
    }
}

/// Decode the raw `(key, value)` hints of a `Notify` call.
pub fn parse_hints(hints: &[(String, OwnedHintValue)]) -> (r: NotificationHints)
    ensures
        r@ == decoded_hints(hints@),
{
    let mut result = NotificationHints::default();
    let n = hints.len();
    let mut i: usize = 0;
    while i < n
        invariant
            n == hints@.len(),
            i <= n,
            result@ == decoded_hints(hints@.subrange(0, i as int)),
        decreases n - i,
    {
        let (key, value) = &hints[i];
        apply_hint(&mut result, key, value);
        proof {
            assert(hints@.subrange(0, i + 1).drop_last() =~= hints@.subrange(0, i as int));
        }
        i = i + 1;
    }
    assert(hints@.subrange(0, n as int) =~= hints@);
    result
}

/// The actions of a `Notify` call: the flat list `[key, label, key, label,
/// ...]` read in pairs; a trailing unpaired entry is dropped.
pub fn parse_actions(actions: &[String]) -> (r: Vec<NotificationAction>)
    ensures
        r@.len() == actions@.len() / 2,
        forall|i: int| 0 <= i < r@.len() ==> {
            &&& (#[trigger] r@[i]).key@ == actions@[2 * i]@
            &&& r@[i].label@ == actions@[2 * i + 1]@
        },
{
    let mut out: Vec<NotificationAction> = Vec::new();
    let total = actions.len();
    let pairs = total / 2;
    let mut i: usize = 0;
    while i < pairs
        invariant
            total == actions@.len(),
            pairs == total / 2,
            i <= pairs,
            out@.len() == i,
            forall|j: int| 0 <= j < i ==> {
                &&& (#[trigger] out@[j]).key@ == actions@[2 * j]@
                &&& out@[j].label@ == actions@[2 * j + 1]@
            },
        decreases pairs - i,
    {
        let action = NotificationAction {
            key: actions[2 * i].clone(),
            label: actions[2 * i + 1].clone(),
        };
        out.push(action);
        i = i + 1;
    }
    out
}

/// An `urgency` byte hint sets the urgency, whatever came before: 0 is
/// low, 2 is critical and every other byte is normal; nothing else of the
/// decoded hints changes.
pub proof fn lemma_urgency_hint(hints: Seq<(String, OwnedHintValue)>, key: String, b: u8)
    requires
        key@ == "urgency"@,
    ensures
        decoded_hints(hints.push((key, OwnedHintValue::Byte(b)))) == (HintsView {
            urgency: Some(
                if b == 0 {
                    Urgency::Low
                } else if b == 2 {
                    Urgency::Critical
                } else {
                    Urgency::Normal
                },
            ),
            ..decoded_hints(hints)
        }),
{
    assert(hints.push((key, OwnedHintValue::Byte(b))).drop_last() =~= hints);
}

/// Hints without an `urgency` byte hint decode to no urgency.
pub proof fn lemma_no_urgency_hint(hints: Seq<(String, OwnedHintValue)>)
    requires
        forall|i: int| 0 <= i < hints.len() ==> !((#[trigger] hints[i]).0@ == "urgency"@ && hints[i].1 is Byte),
    ensures
        decoded_hints(hints).urgency is None,
    decreases hints.len(),
{
    if hints.len() > 0 {
        let prev = hints.drop_last();
        assert forall|i: int| 0 <= i < prev.len() implies !((#[trigger] prev[i]).0@ == "urgency"@
            && prev[i].1 is Byte) by {
            assert(prev[i] == hints[i]);
        }
        lemma_no_urgency_hint(prev);
        assert(hints.last() == hints[hints.len() - 1]);
    }
}

/// A string hint under `category` sets the category, a boolean hint under
/// `suppress-sound` sets that flag, and an integer hint under `value` sets
/// the value; nothing else of the decoded hints changes.
pub proof fn lemma_field_hints(hints: Seq<(String, OwnedHintValue)>, key: String, value: OwnedHintValue)
    ensures
        key@ == "category"@ ==> (value matches OwnedHintValue::String(s) ==> decoded_hints(
            hints.push((key, value)),
        ) == (HintsView { category: Some(s@), ..decoded_hints(hints) })),
        key@ == "suppress-sound"@ ==> (value matches OwnedHintValue::Bool(f) ==> decoded_hints(
            hints.push((key, value)),
        ) == (HintsView { suppress_sound: f, ..decoded_hints(hints) })),
        key@ == "value"@ ==> (value matches OwnedHintValue::Int32(v) ==> decoded_hints(
            hints.push((key, value)),
        ) == (HintsView { value: Some(v), ..decoded_hints(hints) })),
{
    assert(hints.push((key, value)).drop_last() =~= hints);
}

} // verus!
