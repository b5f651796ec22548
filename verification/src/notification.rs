use std::time::Instant;

use vstd::prelude::*;

use crate::strmap::StringMap;

verus! {

/// Urgency level of a notification, as defined by the freedesktop
/// notification specification.
#[derive(Debug, Clone, Copy, PartialEq, Eq, Hash, Structural)]
pub enum Urgency {
    Low,
    Normal,
    Critical,
}

/// The urgency that a raw `urgency` hint byte stands for: 0 is low, 2 is
/// critical, every other byte is normal.
pub open spec fn urgency_of_byte(value: u8) -> Urgency {
    if value == 0 {
        Urgency::Low
    } else if value == 2 {
        Urgency::Critical
    } else {
        Urgency::Normal
    }
}

impl Urgency {
    pub fn from_byte(value: u8) -> (u: Urgency)
        ensures
            u == urgency_of_byte(value),
    {
        match value {
            0 => Urgency::Low,
            2 => Urgency::Critical,
            _ => Urgency::Normal,
        }
    }
}

impl Default for Urgency {
    fn default() -> (u: Self)
        ensures
            u == Urgency::Normal,
    {
        Urgency::Normal
    }
}

/// Why a notification was closed; `code` gives the number that the
/// `NotificationClosed` D-Bus signal carries.
#[derive(Debug, Clone, Copy, PartialEq, Eq, Structural)]
pub enum CloseReason {
    Expired,
    Dismissed,
    Closed,
    Unknown,
}

pub open spec fn close_reason_code(r: CloseReason) -> u32 {
    match r {
        CloseReason::Expired => 1,
        CloseReason::Dismissed => 2,
        CloseReason::Closed => 3,
        CloseReason::Unknown => 4,
    }
}

impl CloseReason {
    pub fn code(&self) -> (c: u32)
        ensures
            c == close_reason_code(*self),
    {
        match self {
            CloseReason::Expired => 1,
            CloseReason::Dismissed => 2,
            CloseReason::Closed => 3,
            CloseReason::Unknown => 4,
        }
    }
}

/// Raw image carried by the `image-data` / `icon_data` hints.
#[derive(Debug, Clone)]
pub struct ImageData {
    pub width: i32,
    pub height: i32,
    pub rowstride: i32,
    pub has_alpha: bool,
    pub bits_per_sample: i32,
    pub channels: i32,
    pub data: Vec<u8>,
}

/// Decoded notification hints.
#[derive(Debug, Clone)]
pub struct NotificationHints {
    pub urgency: Option<Urgency>,
    pub category: Option<String>,
    pub desktop_entry: Option<String>,
    pub image_data: Option<ImageData>,
    pub image_path: Option<String>,
    pub icon_data: Option<ImageData>,
    pub sound_file: Option<String>,
    pub sound_name: Option<String>,
    pub suppress_sound: bool,
    pub transient: bool,
    pub resident: bool,
    pub action_icons: bool,
    pub value: Option<i32>,
    pub extra: StringMap,
}

/// The abstract content of a `NotificationHints`: strings as character
/// sequences and the extra hints as a map.
pub struct HintsView {
    pub urgency: Option<Urgency>,
    pub category: Option<Seq<char>>,
    pub desktop_entry: Option<Seq<char>>,
    pub image_data: Option<ImageData>,
    pub image_path: Option<Seq<char>>,
    pub icon_data: Option<ImageData>,
    pub sound_file: Option<Seq<char>>,
    pub sound_name: Option<Seq<char>>,
    pub suppress_sound: bool,
    pub transient: bool,
    pub resident: bool,
    pub action_icons: bool,
    pub value: Option<i32>,
    pub extra: Map<Seq<char>, Seq<char>>,
}

pub open spec fn opt_str_view(o: Option<String>) -> Option<Seq<char>> {
    match o {
        Some(s) => Some(s@),
        None => None,
    }
}

impl View for NotificationHints {
    type V = HintsView;

    open spec fn view(&self) -> HintsView {
        HintsView {
            urgency: self.urgency,
            category: opt_str_view(self.category),
            desktop_entry: opt_str_view(self.desktop_entry),
            image_data: self.image_data,
            image_path: opt_str_view(self.image_path),
            icon_data: self.icon_data,
            sound_file: opt_str_view(self.sound_file),
            sound_name: opt_str_view(self.sound_name),
            suppress_sound: self.suppress_sound,
            transient: self.transient,
            resident: self.resident,
            action_icons: self.action_icons,
            value: self.value,
            extra: self.extra@,
        }
    }
}

/// Hints with nothing set.
pub open spec fn empty_hints() -> HintsView {
    HintsView {
        urgency: None,
        category: None,
        desktop_entry: None,
        image_data: None,
        image_path: None,
        icon_data: None,
        sound_file: None,
        sound_name: None,
        suppress_sound: false,
        transient: false,
        resident: false,
        action_icons: false,
        value: None,
        extra: Map::empty(),
    }
}

impl Default for NotificationHints {
    fn default() -> (h: Self)
        ensures
            h@ == empty_hints(),
    {
        NotificationHints {
            urgency: None,
            category: None,
            desktop_entry: None,
            image_data: None,
            image_path: None,
            icon_data: None,
            sound_file: None,
            sound_name: None,
            suppress_sound: false,
            transient: false,
            resident: false,
            action_icons: false,
            value: None,
            extra: StringMap::new(),
        }
    }
}

/// An action button offered by a notification.
#[derive(Debug, Clone)]
pub struct NotificationAction {
    pub key: String,
    pub label: String,
}

/// A notification as held by the daemon.
#[derive(Debug, Clone)]
pub struct Notification {
    pub id: u32,
    pub app_name: String,
    pub app_icon: String,
    pub summary: String,
    pub body: String,
    pub actions: Vec<NotificationAction>,
    pub hints: NotificationHints,
    pub expire_timeout: i32,
    pub created_at: Instant,
    pub replaces_id: Option<u32>,
}

/// The urgency of a notification: its hint, or normal where it has none.
pub open spec fn effective_urgency(n: Notification) -> Urgency {
    match n.hints.urgency {
        Some(u) => u,
        None => Urgency::Normal,
    }
}

impl Notification {
    pub fn urgency(&self) -> (u: Urgency)
        ensures
            u == effective_urgency(*self),
    {
        match self.hints.urgency {
            Some(u) => u,
            None => Urgency::Normal,
        }
    }
}

/// `std::time::Instant`, carried through notifications as their creation
/// time; nothing is known of its value.
#[verifier::external_type_specification]
#[verifier::external_body]
pub struct ExInstant(Instant);

/// `Instant` is `Copy`, so its `clone` hands back the same instant.
pub assume_specification[ <Instant as Clone>::clone ](i: &Instant) -> (r: Instant)
    ensures
        r == *i,
;

/// The largest number of nanoseconds that a `std::time::Duration` can hold:
/// `u64::MAX` whole seconds and 999 999 999 nanoseconds.
pub open spec fn max_duration_nanos() -> int {
    18446744073709551615int * 1000000000 + 999999999
}

/// Calls `std::time::Instant::now`. Nothing is claimed of the result.
#[verifier::external_body]
pub(crate) fn instant_now() -> Instant {
    Instant::now()
}

/// Calls `std::time::Instant::elapsed` and converts the `Duration` to whole
/// nanoseconds. The result depends on the clock; the contract claims only
/// that it fits a `Duration`.
#[verifier::external_body]
pub(crate) fn elapsed_nanos(since: &Instant) -> (n: u128)
    ensures
        n <= max_duration_nanos(),
{
    since.elapsed().as_nanos()
}

/// Whole seconds in a number of nanoseconds (what `Duration::as_secs` gives
/// for that duration).
pub fn whole_seconds(nanos: u128) -> (s: u64)
    requires
        nanos <= max_duration_nanos(),
    ensures
        s == nanos / 1000000000,
{
    let secs = nanos / 1000000000;
    assert(secs <= 18446744073709551615u64) by (nonlinear_arith)
        requires
            nanos <= max_duration_nanos(),
            secs == nanos / 1000000000,
    ;
    secs as u64
}

} // verus!
