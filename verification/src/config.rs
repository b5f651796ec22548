use vstd::prelude::*;
use vstd::string::StringSliceAdditionalSpecFns;
use vstd::utf8::is_char_boundary;

use crate::notification::Urgency;
use crate::text::same_text;

verus! {

#[derive(Debug, Clone, Copy, PartialEq, Eq, Structural)]
pub enum SortOrder {
    TimeAscending,
    TimeDescending,
    UrgencyDescending,
}

#[derive(Debug, Clone)]
pub struct GeneralConfig {
    pub max_visible: u32,
    pub default_timeout: u32,
    pub sort_order: SortOrder,
    pub idle_threshold: u32,
}

impl Default for GeneralConfig {
    fn default() -> (c: Self)
        ensures
            c.max_visible == 5,
            c.default_timeout == 5000,
            c.sort_order == SortOrder::TimeAscending,
            c.idle_threshold == 0,
    {
        GeneralConfig {
            max_visible: 5,
            default_timeout: 5000,
            sort_order: SortOrder::TimeAscending,
            idle_threshold: 0,
        }
    }
}

#[derive(Debug, Clone)]
pub enum ShowOn {
    All,
    Focused,
    FollowMouse,
    Output(String),
}

#[derive(Debug, Clone, Copy, PartialEq, Eq, Structural)]
pub enum Anchor {
    TopLeft,
    TopCenter,
    TopRight,
    BottomLeft,
    BottomCenter,
    BottomRight,
    CenterLeft,
    CenterRight,
}

#[derive(Debug, Clone, Copy, PartialEq, Eq, Structural)]
pub struct Margins {
    pub top: u32,
    pub right: u32,
    pub bottom: u32,
    pub left: u32,
}

#[derive(Debug, Clone, Copy, PartialEq, Eq, Structural)]
pub enum Layer {
    Background,
    Bottom,
    Top,
    Overlay,
}

#[derive(Debug, Clone)]
pub struct DisplayConfig {
    pub show_on: ShowOn,
    pub anchor: Anchor,
    pub margin: Margins,
    pub gap: u32,
    pub layer: Layer,
}

impl Default for DisplayConfig {
    fn default() -> (c: Self)
        ensures
            c.show_on is All,
            c.anchor == Anchor::TopRight,
            c.margin == (Margins { top: 10, right: 10, bottom: 10, left: 10 }),
            c.gap == 8,
            c.layer == Layer::Overlay,
    {
        DisplayConfig {
            show_on: ShowOn::All,
            anchor: Anchor::TopRight,
            margin: Margins { top: 10, right: 10, bottom: 10, left: 10 },
            gap: 8,
            layer: Layer::Overlay,
        }
    }
}

/// An RGBA colour, one byte per channel (channel value / 255 is the
/// intensity).
#[derive(Debug, Clone, Copy, PartialEq, Eq, Structural)]
pub struct Color {
    pub r: u8,
    pub g: u8,
    pub b: u8,
    pub a: u8,
}

/// The value of an ASCII hexadecimal digit.
pub open spec fn hex_digit(c: u8) -> Option<u8> {
    if 48 <= c <= 57 {
        Some((c - 48) as u8)
    } else if 97 <= c <= 102 {
        Some((c - 87) as u8)
    } else if 65 <= c <= 70 {
        Some((c - 55) as u8)
    } else {
        None
    }
}

/// What `u8::from_str_radix(.., 16)` gives for a two-byte string: two hex
/// digits, or `+` and one hex digit; anything else is an error (`None`).
pub open spec fn hex_pair(c0: u8, c1: u8) -> Option<u8> {
    if c0 == 43 {
        hex_digit(c1)
    } else {
        match (hex_digit(c0), hex_digit(c1)) {
            (Some(h), Some(l)) => Some((16 * h + l) as u8),
            _ => None,
        }
    }
}

/// Where the digits of a colour string start: after a leading `#`.
pub open spec fn hex_start(b: Seq<u8>) -> int {
    if b.len() > 0 && b[0] == 35 {
        1
    } else {
        0
    }
}

/// The channel read from the bytes at `at` and `at + 1`, or `default`
/// where they are not a hex number.
pub open spec fn channel_at(b: Seq<u8>, at: int, default: u8) -> u8 {
    match hex_pair(b[at], b[at + 1]) {
        Some(v) => v,
        None => default,
    }
}

/// The colour that a string like `#rrggbb` or `#rrggbbaa` (the `#` is
/// optional) stands for. A channel that is not a hex number reads as 0, a
/// missing or malformed alpha as 255.
pub open spec fn color_of_bytes(b: Seq<u8>) -> Color {
    let st = hex_start(b);
    Color {
        r: channel_at(b, st, 0),
        g: channel_at(b, st + 2, 0),
        b: channel_at(b, st + 4, 0),
        a: if b.len() - st >= 8 { channel_at(b, st + 6, 255) } else { 255 },
    }
}

/// The strings that `Color::hex` accepts: at least six bytes after the
/// optional `#`, with the two-byte channel slices on character boundaries.
pub open spec fn hex_color_input(s: &str) -> bool {
    let b = s.spec_bytes();
    let st = hex_start(b);
    &&& b.len() - st >= 6
    &&& is_char_boundary(b, st + 2)
    &&& is_char_boundary(b, st + 4)
    &&& is_char_boundary(b, st + 6)
    &&& (b.len() - st >= 8 ==> is_char_boundary(b, st + 8))
}

fn digit(c: u8) -> (r: Option<u8>)
    ensures
        r == hex_digit(c),
{
    if 48 <= c && c <= 57 {
        Some(c - 48)
    } else if 97 <= c && c <= 102 {
        Some(c - 87)
    } else if 65 <= c && c <= 70 {
        Some(c - 55)
    } else {
        None
    }
}

fn pair(c0: u8, c1: u8) -> (r: Option<u8>)
    ensures
        r == hex_pair(c0, c1),
{
    if c0 == 43 {
        digit(c1)
    } else {
        match (digit(c0), digit(c1)) {
            (Some(h), Some(l)) => Some(16 * h + l),
            _ => None,
        }
    }
}

fn channel(b: &[u8], at: usize, default: u8) -> (r: u8)
    requires
        at + 1 < b@.len(),
    ensures
        r == channel_at(b@, at as int, default),
{
    match pair(b[at], b[at + 1]) {
        Some(v) => v,
        None => default,
    }
}

impl Color {
    /// Parse `#rrggbb` / `#rrggbbaa`.
    #[must_use]
    pub fn hex(s: &str) -> (c: Color)
        requires
            hex_color_input(s),
        ensures
            c == color_of_bytes(s.spec_bytes()),
    {
        let b = s.as_bytes();
        let st: usize = if b.len() > 0 && b[0] == 35 { 1 } else { 0 };
        let r = channel(b, st, 0);
        let g = channel(b, st + 2, 0);
        let bl = channel(b, st + 4, 0);
        let a = if b.len() - st >= 8 { channel(b, st + 6, 255) } else { 255 };
        Color { r, g, b: bl, a }
    }
}

#[derive(Debug, Clone)]
pub struct UrgencyOverride {
    pub timeout: Option<u32>,
    pub background: Option<Color>,
    pub border_color: Option<Color>,
    pub sound: Option<String>,
}

#[derive(Debug, Clone)]
pub struct AppRule {
    pub match_app_name: Option<String>,
    pub match_app_id: Option<String>,
    pub timeout: Option<u32>,
    pub urgency: Option<Urgency>,
    pub background: Option<Color>,
    pub group: Option<bool>,
    pub sound: Option<String>,
}

#[derive(Debug, Clone)]
pub struct GroupingConfig {
    pub enabled: bool,
    pub by_app: bool,
    pub collapse_threshold: u32,
}

impl Default for GroupingConfig {
    fn default() -> (c: Self)
        ensures
            !c.enabled,
            c.by_app,
            c.collapse_threshold == 3,
    {
        GroupingConfig { enabled: false, by_app: true, collapse_threshold: 3 }
    }
}

#[derive(Debug, Clone)]
pub struct DndConfig {
    pub enabled: bool,
    pub allow_critical: bool,
}

impl Default for DndConfig {
    fn default() -> (c: Self)
        ensures
            !c.enabled,
            c.allow_critical,
    {
        DndConfig { enabled: false, allow_critical: true }
    }
}

#[derive(Debug, Clone)]
pub struct HistoryConfig {
    pub enabled: bool,
    pub max_entries: u32,
    pub ttl_seconds: u64,
    pub store_transient: bool,
}

impl Default for HistoryConfig {
    fn default() -> (c: Self)
        ensures
            c.enabled,
            c.max_entries == 100,
            c.ttl_seconds == 86400,
            !c.store_transient,
    {
        HistoryConfig { enabled: true, max_entries: 100, ttl_seconds: 86400, store_transient: false }
    }
}

#[derive(Debug, Clone)]
pub enum ClickAction {
    Dismiss,
    DismissAll,
    InvokeDefault,
    InvokeAction(String),
    DoNothing,
}

#[derive(Debug, Clone)]
pub struct ActionsConfig {
    pub on_left_click: ClickAction,
    pub on_right_click: ClickAction,
    pub on_middle_click: ClickAction,
}

impl Default for ActionsConfig {
    fn default() -> (c: Self)
        ensures
            c.on_left_click is InvokeDefault,
            c.on_right_click is Dismiss,
            c.on_middle_click is DismissAll,
    {
        ActionsConfig {
            on_left_click: ClickAction::InvokeDefault,
            on_right_click: ClickAction::Dismiss,
            on_middle_click: ClickAction::DismissAll,
        }
    }
}

/// The value of a digit `0`-`9` or lowercase `a`-`f`.
pub open spec fn lower_hex_value(c: u8) -> int {
    if c <= 57 {
        c - 48
    } else {
        c - 87
    }
}

/// A digit `0`-`9` or lowercase `a`-`f`.
pub open spec fn is_lower_hex(c: u8) -> bool {
    (48 <= c <= 57) || (97 <= c <= 102)
}

/// `#rrggbb` gives those three bytes at full opacity, and `#rrggbbaa`
/// gives the fourth byte as the alpha, each byte read as two hex digits,
/// high digit first.
pub proof fn lemma_hex_color(b: Seq<u8>)
    requires
        b.len() == 7 || b.len() == 9,
        b[0] == 35,
        forall|i: int| 1 <= i < b.len() ==> is_lower_hex(#[trigger] b[i]),
    ensures
        color_of_bytes(b).r == 16 * lower_hex_value(b[1]) + lower_hex_value(b[2]),
        color_of_bytes(b).g == 16 * lower_hex_value(b[3]) + lower_hex_value(b[4]),
        color_of_bytes(b).b == 16 * lower_hex_value(b[5]) + lower_hex_value(b[6]),
        color_of_bytes(b).a == if b.len() == 9 {
            16 * lower_hex_value(b[7]) + lower_hex_value(b[8])
        } else {
            255
        },
{
    assert(is_lower_hex(b[1]) && is_lower_hex(b[2]) && is_lower_hex(b[3]) && is_lower_hex(b[4]));
    assert(is_lower_hex(b[5]) && is_lower_hex(b[6]));
    if b.len() == 9 {
        assert(is_lower_hex(b[7]) && is_lower_hex(b[8]));
    }
}

} // verus!
