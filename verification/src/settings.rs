//! The decisions of configuration loading: how the names written in the
//! configuration map to settings, and how the values that a section gives
//! change the settings.
use vstd::prelude::*;

use crate::animation::AnimationPreset;
use crate::config::{
    color_of_bytes, hex_color_input, ActionsConfig, Anchor, AppRule, ClickAction, Color,
    DisplayConfig, DndConfig, GeneralConfig, HistoryConfig, Layer, Margins, SortOrder,
    UrgencyOverride,
};
use crate::layout::{Ellipsize, FlexAlign, FlexDirection, FontWeight, ImageKind, TextKind};
use crate::notification::Urgency;
use crate::text::same_text;
use vstd::string::StringSliceAdditionalSpecFns;

verus! {

/// What a click-action name means; any name that is not one of the fixed
/// ones invokes the action with that key.
pub open spec fn click_action_for(r: ClickAction, name: Seq<char>) -> bool {
    if name == "dismiss"@ {
        r is Dismiss
    } else if name == "dismiss_all"@ {
        r is DismissAll
    } else if name == "invoke_default"@ {
        r is InvokeDefault
    } else if name == "do_nothing"@ || name == "none"@ {
        r is DoNothing
    } else {
        r matches ClickAction::InvokeAction(k) && k@ == name
    }
}

pub fn parse_click_action(s: &str) -> (r: ClickAction)
    ensures
        click_action_for(r, s@),
{
    if same_text(s, "dismiss") {
        ClickAction::Dismiss
    } else if same_text(s, "dismiss_all") {
        ClickAction::DismissAll
    } else if same_text(s, "invoke_default") {
        ClickAction::InvokeDefault
    } else if same_text(s, "do_nothing") || same_text(s, "none") {
        ClickAction::DoNothing
    } else {
        ClickAction::InvokeAction(s.to_owned())
    }
}

pub open spec fn sort_order_for(name: Seq<char>, current: SortOrder) -> SortOrder {
    if name == "time_ascending"@ || name == "time_asc"@ {
        SortOrder::TimeAscending
    } else if name == "time_descending"@ || name == "time_desc"@ {
        SortOrder::TimeDescending
    } else if name == "urgency_descending"@ || name == "urgency_desc"@ {
        SortOrder::UrgencyDescending
    } else {
        current
    }
}

/// A sort order by name; an unknown name keeps `current`.
pub fn sort_order_named(name: &str, current: SortOrder) -> (r: SortOrder)
    ensures
        r == sort_order_for(name@, current),
{
    if same_text(name, "time_ascending") || same_text(name, "time_asc") {
        SortOrder::TimeAscending
    } else if same_text(name, "time_descending") || same_text(name, "time_desc") {
        SortOrder::TimeDescending
    } else if same_text(name, "urgency_descending") || same_text(name, "urgency_desc") {
        SortOrder::UrgencyDescending
    } else {
        current
    }
}

pub open spec fn anchor_for(name: Seq<char>, current: Anchor) -> Anchor {
    if name == "top-left"@ || name == "top_left"@ {
        Anchor::TopLeft
    } else if name == "top-center"@ || name == "top_center"@ {
        Anchor::TopCenter
    } else if name == "top-right"@ || name == "top_right"@ {
        Anchor::TopRight
    } else if name == "bottom-left"@ || name == "bottom_left"@ {
        Anchor::BottomLeft
    } else if name == "bottom-center"@ || name == "bottom_center"@ {
        Anchor::BottomCenter
    } else if name == "bottom-right"@ || name == "bottom_right"@ {
        Anchor::BottomRight
    } else if name == "center-left"@ || name == "center_left"@ {
        Anchor::CenterLeft
    } else if name == "center-right"@ || name == "center_right"@ {
        Anchor::CenterRight
    } else {
        current
    }
}

/// An anchor by name (dashes or underscores); an unknown name keeps
/// `current`.
pub fn anchor_named(name: &str, current: Anchor) -> (r: Anchor)
    ensures
        r == anchor_for(name@, current),
{
    if same_text(name, "top-left") || same_text(name, "top_left") {
        Anchor::TopLeft
    } else if same_text(name, "top-center") || same_text(name, "top_center") {
        Anchor::TopCenter
    } else if same_text(name, "top-right") || same_text(name, "top_right") {
        Anchor::TopRight
    } else if same_text(name, "bottom-left") || same_text(name, "bottom_left") {
        Anchor::BottomLeft
    } else if same_text(name, "bottom-center") || same_text(name, "bottom_center") {
        Anchor::BottomCenter
    } else if same_text(name, "bottom-right") || same_text(name, "bottom_right") {
        Anchor::BottomRight
    } else if same_text(name, "center-left") || same_text(name, "center_left") {
        Anchor::CenterLeft
    } else if same_text(name, "center-right") || same_text(name, "center_right") {
        Anchor::CenterRight
    } else {
        current
    }
}

pub open spec fn layer_for(name: Seq<char>, current: Layer) -> Layer {
    if name == "background"@ {
        Layer::Background
    } else if name == "bottom"@ {
        Layer::Bottom
    } else if name == "top"@ {
        Layer::Top
    } else if name == "overlay"@ {
        Layer::Overlay
    } else {
        current
    }
}

/// A layer by name; an unknown name keeps `current`.
pub fn layer_named(name: &str, current: Layer) -> (r: Layer)
    ensures
        r == layer_for(name@, current),
{
    if same_text(name, "background") {
        Layer::Background
    } else if same_text(name, "bottom") {
        Layer::Bottom
    } else if same_text(name, "top") {
        Layer::Top
    } else if same_text(name, "overlay") {
        Layer::Overlay
    } else {
        current
    }
}

pub open spec fn preset_for(name: Seq<char>) -> AnimationPreset {
    if name == "none"@ {
        AnimationPreset::Disabled
    } else if name == "standard"@ {
        AnimationPreset::Standard
    } else if name == "dynamic"@ {
        AnimationPreset::Dynamic
    } else if name == "custom"@ {
        AnimationPreset::Custom
    } else {
        AnimationPreset::Standard
    }
}

/// An animation preset by name; an unknown name means the standard one.
pub fn preset_named(name: &str) -> (r: AnimationPreset)
    ensures
        r == preset_for(name@),
{
    if same_text(name, "none") {
        AnimationPreset::Disabled
    } else if same_text(name, "standard") {
        AnimationPreset::Standard
    } else if same_text(name, "dynamic") {
        AnimationPreset::Dynamic
    } else if same_text(name, "custom") {
        AnimationPreset::Custom
    } else {
        AnimationPreset::Standard
    }
}

pub open spec fn urgency_for(name: Seq<char>) -> Urgency {
    if name == "low"@ {
        Urgency::Low
    } else if name == "critical"@ {
        Urgency::Critical
    } else {
        Urgency::Normal
    }
}

/// An urgency level by name; anything but `low` and `critical` is normal.
pub fn urgency_named(name: &str) -> (r: Urgency)
    ensures
        r == urgency_for(name@),
{
    if same_text(name, "low") {
        Urgency::Low
    } else if same_text(name, "critical") {
        Urgency::Critical
    } else {
        Urgency::Normal
    }
}

/// A flex direction by name: `row`, otherwise a column.
pub fn direction_named(name: &str) -> (r: FlexDirection)
    ensures
        r == (if name@ == "row"@ { FlexDirection::Row } else { FlexDirection::Column }),
{
    if same_text(name, "row") {
        FlexDirection::Row
    } else {
        FlexDirection::Column
    }
}

/// The direction of an actions row by name: `column`, otherwise a row.
pub fn actions_layout_named(name: &str) -> (r: FlexDirection)
    ensures
        r == (if name@ == "column"@ { FlexDirection::Column } else { FlexDirection::Row }),
{
    if same_text(name, "column") {
        FlexDirection::Column
    } else {
        FlexDirection::Row
    }
}

pub open spec fn align_for(name: Seq<char>) -> FlexAlign {
    if name == "center"@ {
        FlexAlign::Center
    } else if name == "end"@ {
        FlexAlign::End
    } else if name == "stretch"@ {
        FlexAlign::Stretch
    } else {
        FlexAlign::Start
    }
}

/// A cross-axis alignment by name; anything unknown aligns at the start.
pub fn align_named(name: &str) -> (r: FlexAlign)
    ensures
        r == align_for(name@),
{
    if same_text(name, "center") {
        FlexAlign::Center
    } else if same_text(name, "end") {
        FlexAlign::End
    } else if same_text(name, "stretch") {
        FlexAlign::Stretch
    } else {
        FlexAlign::Start
    }
}

pub open spec fn text_kind_for(name: Seq<char>) -> TextKind {
    if name == "summary"@ {
        TextKind::Summary
    } else if name == "app_name"@ {
        TextKind::AppName
    } else {
        TextKind::Body
    }
}

/// The field a text element shows, by name; anything unknown is the body.
pub fn text_kind_named(name: &str) -> (r: TextKind)
    ensures
        r == text_kind_for(name@),
{
    if same_text(name, "summary") {
        TextKind::Summary
    } else if same_text(name, "app_name") {
        TextKind::AppName
    } else {
        TextKind::Body
    }
}

pub open spec fn ellipsize_for(name: Seq<char>) -> Ellipsize {
    if name == "start"@ {
        Ellipsize::Start
    } else if name == "middle"@ {
        Ellipsize::Middle
    } else if name == "end"@ {
        Ellipsize::End
    } else {
        Ellipsize::NoEllipsis
    }
}

/// Where overlong text is cut, by name; anything unknown means not at all.
pub fn ellipsize_named(name: &str) -> (r: Ellipsize)
    ensures
        r == ellipsize_for(name@),
{
    if same_text(name, "start") {
        Ellipsize::Start
    } else if same_text(name, "middle") {
        Ellipsize::Middle
    } else if same_text(name, "end") {
        Ellipsize::End
    } else {
        Ellipsize::NoEllipsis
    }
}

pub open spec fn font_weight_for(name: Seq<char>) -> FontWeight {
    if name == "light"@ {
        FontWeight::Light
    } else if name == "medium"@ {
        FontWeight::Medium
    } else if name == "semibold"@ {
        FontWeight::Semibold
    } else if name == "bold"@ {
        FontWeight::Bold
    } else {
        FontWeight::Regular
    }
}

/// A font weight by name; anything unknown is regular.
pub fn font_weight_named(name: &str) -> (r: FontWeight)
    ensures
        r == font_weight_for(name@),
{
    if same_text(name, "light") {
        FontWeight::Light
    } else if same_text(name, "medium") {
        FontWeight::Medium
    } else if same_text(name, "semibold") {
        FontWeight::Semibold
    } else if same_text(name, "bold") {
        FontWeight::Bold
    } else {
        FontWeight::Regular
    }
}

/// The image an image element shows, by name: `image_data`, otherwise the
/// application icon.
pub fn image_kind_named(name: &str) -> (r: ImageKind)
    ensures
        r == (if name@ == "image_data"@ { ImageKind::ImageData } else { ImageKind::AppIcon }),
{
    if same_text(name, "image_data") {
        ImageKind::ImageData
    } else {
        ImageKind::AppIcon
    }
}

/// A setting that a section may give: the given value, or the current one.
pub open spec fn given_or<T>(v: Option<T>, current: T) -> T {
    match v {
        Some(x) => x,
        None => current,
    }
}

impl GeneralConfig {
    /// Take the values that the `general` section gives.
    pub fn apply(
        &mut self,
        max_visible: Option<u32>,
        default_timeout: Option<u32>,
        sort_order: Option<&str>,
        idle_threshold: Option<u32>,
    )
        ensures
            final(self).max_visible == given_or(max_visible, old(self).max_visible),
            final(self).default_timeout == given_or(default_timeout, old(self).default_timeout),
            final(self).sort_order == match sort_order {
                Some(s) => sort_order_for(s@, old(self).sort_order),
                None => old(self).sort_order,
            },
            final(self).idle_threshold == given_or(idle_threshold, old(self).idle_threshold),
    {
        if let Some(v) = max_visible {
            self.max_visible = v;
        }
        if let Some(v) = default_timeout {
            self.default_timeout = v;
        }
        if let Some(v) = sort_order {
            self.sort_order = sort_order_named(v, self.sort_order);
        }
        if let Some(v) = idle_threshold {
            self.idle_threshold = v;
        }
    }
}

impl Margins {
    /// Take the sides that a `margin` / `padding` table gives.
    pub fn apply(&mut self, top: Option<u32>, right: Option<u32>, bottom: Option<u32>, left: Option<u32>)
        ensures
            final(self).top == given_or(top, old(self).top),
            final(self).right == given_or(right, old(self).right),
            final(self).bottom == given_or(bottom, old(self).bottom),
            final(self).left == given_or(left, old(self).left),
    {
        if let Some(v) = top {
            self.top = v;
        }
        if let Some(v) = right {
            self.right = v;
        }
        if let Some(v) = bottom {
            self.bottom = v;
        }
        if let Some(v) = left {
            self.left = v;
        }
    }
}

impl DisplayConfig {
    /// Take the values that the `display` section gives (its `margin`
    /// table goes to `Margins::apply`).
    pub fn apply(&mut self, anchor: Option<&str>, gap: Option<u32>, layer: Option<&str>)
        ensures
            final(self).anchor == match anchor {
                Some(s) => anchor_for(s@, old(self).anchor),
                None => old(self).anchor,
            },
            final(self).gap == given_or(gap, old(self).gap),
            final(self).layer == match layer {
                Some(s) => layer_for(s@, old(self).layer),
                None => old(self).layer,
            },
            final(self).margin == old(self).margin,
            final(self).show_on == old(self).show_on,
    {
        if let Some(v) = anchor {
            self.anchor = anchor_named(v, self.anchor);
        }
        if let Some(v) = gap {
            self.gap = v;
        }
        if let Some(v) = layer {
            self.layer = layer_named(v, self.layer);
        }
    }
}

impl DndConfig {
    pub fn apply(&mut self, enabled: Option<bool>, allow_critical: Option<bool>)
        ensures
            final(self).enabled == given_or(enabled, old(self).enabled),
            final(self).allow_critical == given_or(allow_critical, old(self).allow_critical),
    {
        if let Some(v) = enabled {
            self.enabled = v;
        }
        if let Some(v) = allow_critical {
            self.allow_critical = v;
        }
    }
}

impl HistoryConfig {
    pub fn apply(
        &mut self,
        enabled: Option<bool>,
        max_entries: Option<u32>,
        ttl_seconds: Option<u64>,
        store_transient: Option<bool>,
    )
        ensures
            final(self).enabled == given_or(enabled, old(self).enabled),
            final(self).max_entries == given_or(max_entries, old(self).max_entries),
            final(self).ttl_seconds == given_or(ttl_seconds, old(self).ttl_seconds),
            final(self).store_transient == given_or(store_transient, old(self).store_transient),
    {
        if let Some(v) = enabled {
            self.enabled = v;
        }
        if let Some(v) = max_entries {
            self.max_entries = v;
        }
        if let Some(v) = ttl_seconds {
            self.ttl_seconds = v;
        }
        if let Some(v) = store_transient {
            self.store_transient = v;
        }
    }
}

impl ActionsConfig {
    /// Take the click actions that the `actions` section names.
    pub fn apply(&mut self, left: Option<&str>, right: Option<&str>, middle: Option<&str>)
        ensures
            match left {
                Some(s) => click_action_for(final(self).on_left_click, s@),
                None => final(self).on_left_click == old(self).on_left_click,
            },
            match right {
                Some(s) => click_action_for(final(self).on_right_click, s@),
                None => final(self).on_right_click == old(self).on_right_click,
            },
            match middle {
                Some(s) => click_action_for(final(self).on_middle_click, s@),
                None => final(self).on_middle_click == old(self).on_middle_click,
            },
    {
        if let Some(v) = left {
            self.on_left_click = parse_click_action(v);
        }
        if let Some(v) = right {
            self.on_right_click = parse_click_action(v);
        }
        if let Some(v) = middle {
            self.on_middle_click = parse_click_action(v);
        }
    }
}

/// An optional colour string, parsed where present.
pub open spec fn optional_color(s: Option<&str>) -> Option<Color> {
    match s {
        Some(v) => Some(color_of_bytes(v.spec_bytes())),
        None => None,
    }
}

/// The colour strings that can be parsed: absent, or a hex colour.
pub open spec fn optional_color_input(s: Option<&str>) -> bool {
    match s {
        Some(v) => hex_color_input(v),
        None => true,
    }
}

fn parse_optional_color(s: Option<&str>) -> (r: Option<Color>)
    requires
        optional_color_input(s),
    ensures
        r == optional_color(s),
{
    match s {
        Some(v) => Some(Color::hex(v)),
        None => None,
    }
}

impl UrgencyOverride {
    /// The override that an urgency level's table gives.
    pub fn from_values(
        timeout: Option<u32>,
        background: Option<&str>,
        border_color: Option<&str>,
        sound: Option<String>,
    ) -> (o: UrgencyOverride)
        requires
            optional_color_input(background),
            optional_color_input(border_color),
        ensures
            o.timeout == timeout,
            o.background == optional_color(background),
            o.border_color == optional_color(border_color),
            o.sound == sound,
    {
        UrgencyOverride {
            timeout,
            background: parse_optional_color(background),
            border_color: parse_optional_color(border_color),
            sound,
        }
    }
}

impl AppRule {
    /// The rule that one entry of the `apps` list gives.
    pub fn from_values(
        match_app_name: Option<String>,
        match_app_id: Option<String>,
        timeout: Option<u32>,
        urgency: Option<&str>,
        background: Option<&str>,
        group: Option<bool>,
        sound: Option<String>,
    ) -> (rule: AppRule)
        requires
            optional_color_input(background),
        ensures
            rule.match_app_name == match_app_name,
            rule.match_app_id == match_app_id,
            rule.timeout == timeout,
            rule.urgency == match urgency {
                Some(s) => Some(urgency_for(s@)),
                None => None::<Urgency>,
            },
            rule.background == optional_color(background),
            rule.group == group,
            rule.sound == sound,
    {
        let level = match urgency {
            Some(s) => Some(urgency_named(s)),
            None => None,
        };
        AppRule {
            match_app_name,
            match_app_id,
            timeout,
            urgency: level,
            background: parse_optional_color(background),
            group,
            sound,
        }
    }
}

/// A name written with `_` in place of each `-`.
pub open spec fn underscored(name: Seq<char>) -> Seq<char> {
    name.map_values(|c: char| if c == '-' { '_' } else { c })
}

/// The configuration name of each anchor.
pub open spec fn anchor_name(a: Anchor) -> Seq<char> {
    match a {
        Anchor::TopLeft => "top-left"@,
        Anchor::TopCenter => "top-center"@,
        Anchor::TopRight => "top-right"@,
        Anchor::BottomLeft => "bottom-left"@,
        Anchor::BottomCenter => "bottom-center"@,
        Anchor::BottomRight => "bottom-right"@,
        Anchor::CenterLeft => "center-left"@,
        Anchor::CenterRight => "center-right"@,
    }
}

/// Each anchor's name, with dashes or with underscores, gives that anchor
/// whatever the current one is; any other name keeps the current anchor.
pub proof fn lemma_anchor_names(a: Anchor, current: Anchor, other: Seq<char>)
    ensures
        anchor_for(anchor_name(a), current) == a,
        anchor_for(underscored(anchor_name(a)), current) == a,
        (forall|b: Anchor| other != #[trigger] anchor_name(b) && other != underscored(anchor_name(b)))
            ==> anchor_for(other, current) == current,
{
    reveal_strlit("top-left");
    reveal_strlit("top_left");
    reveal_strlit("top-center");
    reveal_strlit("top_center");
    reveal_strlit("top-right");
    reveal_strlit("top_right");
    reveal_strlit("bottom-left");
    reveal_strlit("bottom_left");
    reveal_strlit("bottom-center");
    reveal_strlit("bottom_center");
    reveal_strlit("bottom-right");
    reveal_strlit("bottom_right");
    reveal_strlit("center-left");
    reveal_strlit("center_left");
    reveal_strlit("center-right");
    reveal_strlit("center_right");
    assert(underscored("top-left"@) =~= "top_left"@);
    assert(underscored("top-center"@) =~= "top_center"@);
    assert(underscored("top-right"@) =~= "top_right"@);
    assert(underscored("bottom-left"@) =~= "bottom_left"@);
    assert(underscored("bottom-center"@) =~= "bottom_center"@);
    assert(underscored("bottom-right"@) =~= "bottom_right"@);
    assert(underscored("center-left"@) =~= "center_left"@);
    assert(underscored("center-right"@) =~= "center_right"@);
    match a {
        Anchor::TopLeft => {

        },
        Anchor::TopCenter => {
            assert("top-center"@.len() != "top-left"@.len());
            assert("top-center"@.len() != "top_left"@.len());
            assert("top_center"@.len() != "top-left"@.len());
            assert("top_center"@.len() != "top_left"@.len());
        },
        Anchor::TopRight => {
            assert("top-right"@.len() != "top-left"@.len());
            assert("top-right"@.len() != "top_left"@.len());
            assert("top-right"@.len() != "top-center"@.len());
            assert("top-right"@.len() != "top_center"@.len());
            assert("top_right"@.len() != "top-left"@.len());
            assert("top_right"@.len() != "top_left"@.len());
            assert("top_right"@.len() != "top-center"@.len());
            assert("top_right"@.len() != "top_center"@.len());
        },
        Anchor::BottomLeft => {
            assert("bottom-left"@.len() != "top-left"@.len());
            assert("bottom-left"@.len() != "top_left"@.len());
            assert("bottom-left"@.len() != "top-center"@.len());
            assert("bottom-left"@.len() != "top_center"@.len());
            assert("bottom-left"@.len() != "top-right"@.len());
            assert("bottom-left"@.len() != "top_right"@.len());
            assert("bottom_left"@.len() != "top-left"@.len());
            assert("bottom_left"@.len() != "top_left"@.len());
            assert("bottom_left"@.len() != "top-center"@.len());
            assert("bottom_left"@.len() != "top_center"@.len());
            assert("bottom_left"@.len() != "top-right"@.len());
            assert("bottom_left"@.len() != "top_right"@.len());
        },
        Anchor::BottomCenter => {
            assert("bottom-center"@.len() != "top-left"@.len());
            assert("bottom-center"@.len() != "top_left"@.len());
            assert("bottom-center"@.len() != "top-center"@.len());
            assert("bottom-center"@.len() != "top_center"@.len());
            assert("bottom-center"@.len() != "top-right"@.len());
            assert("bottom-center"@.len() != "top_right"@.len());
            assert("bottom-center"@.len() != "bottom-left"@.len());
            assert("bottom-center"@.len() != "bottom_left"@.len());
            assert("bottom_center"@.len() != "top-left"@.len());
            assert("bottom_center"@.len() != "top_left"@.len());
            assert("bottom_center"@.len() != "top-center"@.len());
            assert("bottom_center"@.len() != "top_center"@.len());
            assert("bottom_center"@.len() != "top-right"@.len());
            assert("bottom_center"@.len() != "top_right"@.len());
            assert("bottom_center"@.len() != "bottom-left"@.len());
            assert("bottom_center"@.len() != "bottom_left"@.len());
        },
        Anchor::BottomRight => {
            assert("bottom-right"@.len() != "top-left"@.len());
            assert("bottom-right"@.len() != "top_left"@.len());
            assert("bottom-right"@.len() != "top-center"@.len());
            assert("bottom-right"@.len() != "top_center"@.len());
            assert("bottom-right"@.len() != "top-right"@.len());
            assert("bottom-right"@.len() != "top_right"@.len());
            assert("bottom-right"@.len() != "bottom-left"@.len());
            assert("bottom-right"@.len() != "bottom_left"@.len());
            assert("bottom-right"@.len() != "bottom-center"@.len());
            assert("bottom-right"@.len() != "bottom_center"@.len());
            assert("bottom_right"@.len() != "top-left"@.len());
            assert("bottom_right"@.len() != "top_left"@.len());
            assert("bottom_right"@.len() != "top-center"@.len());
            assert("bottom_right"@.len() != "top_center"@.len());
            assert("bottom_right"@.len() != "top-right"@.len());
            assert("bottom_right"@.len() != "top_right"@.len());
            assert("bottom_right"@.len() != "bottom-left"@.len());
            assert("bottom_right"@.len() != "bottom_left"@.len());
            assert("bottom_right"@.len() != "bottom-center"@.len());
            assert("bottom_right"@.len() != "bottom_center"@.len());
        },
        Anchor::CenterLeft => {
            assert("center-left"@.len() != "top-left"@.len());
            assert("center-left"@.len() != "top_left"@.len());
            assert("center-left"@.len() != "top-center"@.len());
            assert("center-left"@.len() != "top_center"@.len());
            assert("center-left"@.len() != "top-right"@.len());
            assert("center-left"@.len() != "top_right"@.len());
            assert("center-left"@[0] != "bottom-left"@[0]);
            assert("center-left"@[0] != "bottom_left"@[0]);
            assert("center-left"@.len() != "bottom-center"@.len());
            assert("center-left"@.len() != "bottom_center"@.len());
            assert("center-left"@.len() != "bottom-right"@.len());
            assert("center-left"@.len() != "bottom_right"@.len());
            assert("center_left"@.len() != "top-left"@.len());
            assert("center_left"@.len() != "top_left"@.len());
            assert("center_left"@.len() != "top-center"@.len());
            assert("center_left"@.len() != "top_center"@.len());
            assert("center_left"@.len() != "top-right"@.len());
            assert("center_left"@.len() != "top_right"@.len());
            assert("center_left"@[0] != "bottom-left"@[0]);
            assert("center_left"@[0] != "bottom_left"@[0]);
            assert("center_left"@.len() != "bottom-center"@.len());
            assert("center_left"@.len() != "bottom_center"@.len());
            assert("center_left"@.len() != "bottom-right"@.len());
            assert("center_left"@.len() != "bottom_right"@.len());
        },
        Anchor::CenterRight => {
            assert("center-right"@.len() != "top-left"@.len());
            assert("center-right"@.len() != "top_left"@.len());
            assert("center-right"@.len() != "top-center"@.len());
            assert("center-right"@.len() != "top_center"@.len());
            assert("center-right"@.len() != "top-right"@.len());
            assert("center-right"@.len() != "top_right"@.len());
            assert("center-right"@.len() != "bottom-left"@.len());
            assert("center-right"@.len() != "bottom_left"@.len());
            assert("center-right"@.len() != "bottom-center"@.len());
            assert("center-right"@.len() != "bottom_center"@.len());
            assert("center-right"@[0] != "bottom-right"@[0]);
            assert("center-right"@[0] != "bottom_right"@[0]);
            assert("center-right"@.len() != "center-left"@.len());
            assert("center-right"@.len() != "center_left"@.len());
            assert("center_right"@.len() != "top-left"@.len());
            assert("center_right"@.len() != "top_left"@.len());
            assert("center_right"@.len() != "top-center"@.len());
            assert("center_right"@.len() != "top_center"@.len());
            assert("center_right"@.len() != "top-right"@.len());
            assert("center_right"@.len() != "top_right"@.len());
            assert("center_right"@.len() != "bottom-left"@.len());
            assert("center_right"@.len() != "bottom_left"@.len());
            assert("center_right"@.len() != "bottom-center"@.len());
            assert("center_right"@.len() != "bottom_center"@.len());
            assert("center_right"@[0] != "bottom-right"@[0]);
            assert("center_right"@[0] != "bottom_right"@[0]);
            assert("center_right"@.len() != "center-left"@.len());
            assert("center_right"@.len() != "center_left"@.len());
        },
    }
    if forall|b: Anchor| other != #[trigger] anchor_name(b) && other != underscored(anchor_name(b)) {
        assert(other != anchor_name(Anchor::TopLeft) && other != underscored(anchor_name(Anchor::TopLeft)));
        assert(other != anchor_name(Anchor::TopCenter) && other != underscored(anchor_name(Anchor::TopCenter)));
        assert(other != anchor_name(Anchor::TopRight) && other != underscored(anchor_name(Anchor::TopRight)));
        assert(other != anchor_name(Anchor::BottomLeft) && other != underscored(anchor_name(Anchor::BottomLeft)));
        assert(other != anchor_name(Anchor::BottomCenter) && other != underscored(
            anchor_name(Anchor::BottomCenter),
        ));
        assert(other != anchor_name(Anchor::BottomRight) && other != underscored(anchor_name(Anchor::BottomRight)));
        assert(other != anchor_name(Anchor::CenterLeft) && other != underscored(anchor_name(Anchor::CenterLeft)));
        assert(other != anchor_name(Anchor::CenterRight) && other != underscored(anchor_name(Anchor::CenterRight)));
    }
}

/// The configuration names of each layer.
pub open spec fn layer_names(x: Layer) -> Set<Seq<char>> {
    match x {
        Layer::Background => set!["background"@],
        Layer::Bottom => set!["bottom"@],
        Layer::Top => set!["top"@],
        Layer::Overlay => set!["overlay"@],
    }
}

/// Each layer name gives that layer; any other name keeps the current layer.
pub proof fn lemma_layer_names(x: Layer, name: Seq<char>, current: Layer)
    ensures
        layer_names(x).contains(name) ==> layer_for(name, current) == x,
        (forall|y: Layer| !(#[trigger] layer_names(y)).contains(name)) ==> layer_for(name, current) == current,
{
    reveal_strlit("background");
    reveal_strlit("bottom");
    reveal_strlit("top");
    reveal_strlit("overlay");
    assert("background"@.len() != "bottom"@.len());
    assert("background"@.len() != "top"@.len());
    assert("background"@.len() != "overlay"@.len());
    assert("bottom"@.len() != "top"@.len());
    assert("bottom"@.len() != "overlay"@.len());
    assert("top"@.len() != "overlay"@.len());
    if forall|y: Layer| !(#[trigger] layer_names(y)).contains(name) {
        assert(!layer_names(Layer::Background).contains(name));
        assert(!layer_names(Layer::Bottom).contains(name));
        assert(!layer_names(Layer::Top).contains(name));
        assert(!layer_names(Layer::Overlay).contains(name));
    }
}
/// The configuration names of each sort order.
pub open spec fn sort_order_names(x: SortOrder) -> Set<Seq<char>> {
    match x {
        SortOrder::TimeAscending => set!["time_ascending"@, "time_asc"@],
        SortOrder::TimeDescending => set!["time_descending"@, "time_desc"@],
        SortOrder::UrgencyDescending => set!["urgency_descending"@, "urgency_desc"@],
    }
}

/// Each sort order name gives that sort order; any other name keeps the current order.
pub proof fn lemma_sort_order_names(x: SortOrder, name: Seq<char>, current: SortOrder)
    ensures
        sort_order_names(x).contains(name) ==> sort_order_for(name, current) == x,
        (forall|y: SortOrder| !(#[trigger] sort_order_names(y)).contains(name)) ==> sort_order_for(name, current) == current,
{
    reveal_strlit("time_ascending");
    reveal_strlit("time_asc");
    reveal_strlit("time_descending");
    reveal_strlit("time_desc");
    reveal_strlit("urgency_descending");
    reveal_strlit("urgency_desc");
    assert("time_ascending"@.len() != "time_asc"@.len());
    assert("time_ascending"@.len() != "time_descending"@.len());
    assert("time_ascending"@.len() != "time_desc"@.len());
    assert("time_ascending"@.len() != "urgency_descending"@.len());
    assert("time_ascending"@.len() != "urgency_desc"@.len());
    assert("time_asc"@.len() != "time_descending"@.len());
    assert("time_asc"@.len() != "time_desc"@.len());
    assert("time_asc"@.len() != "urgency_descending"@.len());
    assert("time_asc"@.len() != "urgency_desc"@.len());
    assert("time_descending"@.len() != "time_desc"@.len());
    assert("time_descending"@.len() != "urgency_descending"@.len());
    assert("time_descending"@.len() != "urgency_desc"@.len());
    assert("time_desc"@.len() != "urgency_descending"@.len());
    assert("time_desc"@.len() != "urgency_desc"@.len());
    assert("urgency_descending"@.len() != "urgency_desc"@.len());
    if forall|y: SortOrder| !(#[trigger] sort_order_names(y)).contains(name) {
        assert(!sort_order_names(SortOrder::TimeAscending).contains(name));
        assert(!sort_order_names(SortOrder::TimeDescending).contains(name));
        assert(!sort_order_names(SortOrder::UrgencyDescending).contains(name));
    }
}
/// The configuration names of each animation preset.
pub open spec fn preset_names(x: AnimationPreset) -> Set<Seq<char>> {
    match x {
        AnimationPreset::Disabled => set!["none"@],
        AnimationPreset::Standard => set!["standard"@],
        AnimationPreset::Dynamic => set!["dynamic"@],
        AnimationPreset::Custom => set!["custom"@],
    }
}

/// Each animation preset name gives that animation preset; any other name means the standard preset.
pub proof fn lemma_preset_names(x: AnimationPreset, name: Seq<char>)
    ensures
        preset_names(x).contains(name) ==> preset_for(name) == x,
        (forall|y: AnimationPreset| !(#[trigger] preset_names(y)).contains(name)) ==> preset_for(name) == AnimationPreset::Standard,
{
    reveal_strlit("none");
    reveal_strlit("standard");
    reveal_strlit("dynamic");
    reveal_strlit("custom");
    assert("none"@.len() != "standard"@.len());
    assert("none"@.len() != "dynamic"@.len());
    assert("none"@.len() != "custom"@.len());
    assert("standard"@.len() != "dynamic"@.len());
    assert("standard"@.len() != "custom"@.len());
    assert("dynamic"@.len() != "custom"@.len());
    if forall|y: AnimationPreset| !(#[trigger] preset_names(y)).contains(name) {
        assert(!preset_names(AnimationPreset::Disabled).contains(name));
        assert(!preset_names(AnimationPreset::Standard).contains(name));
        assert(!preset_names(AnimationPreset::Dynamic).contains(name));
        assert(!preset_names(AnimationPreset::Custom).contains(name));
    }
}
/// The configuration names of each urgency level.
pub open spec fn urgency_names(x: Urgency) -> Set<Seq<char>> {
    match x {
        Urgency::Low => set!["low"@],
        Urgency::Normal => set!["normal"@],
        Urgency::Critical => set!["critical"@],
    }
}

/// Each urgency level name gives that urgency level; any other name means normal.
pub proof fn lemma_urgency_names(x: Urgency, name: Seq<char>)
    ensures
        urgency_names(x).contains(name) ==> urgency_for(name) == x,
        (forall|y: Urgency| !(#[trigger] urgency_names(y)).contains(name)) ==> urgency_for(name) == Urgency::Normal,
{
    reveal_strlit("low");
    reveal_strlit("normal");
    reveal_strlit("critical");
    assert("low"@.len() != "normal"@.len());
    assert("low"@.len() != "critical"@.len());
    assert("normal"@.len() != "critical"@.len());
    if forall|y: Urgency| !(#[trigger] urgency_names(y)).contains(name) {
        assert(!urgency_names(Urgency::Low).contains(name));
        assert(!urgency_names(Urgency::Normal).contains(name));
        assert(!urgency_names(Urgency::Critical).contains(name));
    }
}
/// A click-action name means the action of that name (`none` and
/// `do_nothing` both do nothing); any other name invokes the notification
/// action with that very key.
pub proof fn lemma_click_action_names(r: ClickAction, name: Seq<char>)
    requires
        click_action_for(r, name),
    ensures
        name == "dismiss"@ ==> r is Dismiss,
        name == "dismiss_all"@ ==> r is DismissAll,
        name == "invoke_default"@ ==> r is InvokeDefault,
        name == "do_nothing"@ || name == "none"@ ==> r is DoNothing,
        name != "dismiss"@ && name != "dismiss_all"@ && name != "invoke_default"@ && name != "do_nothing"@
            && name != "none"@ ==> (r matches ClickAction::InvokeAction(k) && k@ == name),
{
    reveal_strlit("dismiss");
    reveal_strlit("dismiss_all");
    reveal_strlit("invoke_default");
    reveal_strlit("do_nothing");
    reveal_strlit("none");
    assert("dismiss"@.len() != "dismiss_all"@.len());
    assert("dismiss"@.len() != "invoke_default"@.len());
    assert("dismiss"@.len() != "do_nothing"@.len());
    assert("dismiss"@.len() != "none"@.len());
    assert("dismiss_all"@.len() != "invoke_default"@.len());
    assert("dismiss_all"@.len() != "do_nothing"@.len());
    assert("dismiss_all"@.len() != "none"@.len());
    assert("invoke_default"@.len() != "do_nothing"@.len());
    assert("invoke_default"@.len() != "none"@.len());
    assert("do_nothing"@.len() != "none"@.len());
}
} // verus!
