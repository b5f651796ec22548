use vstd::prelude::*;

use crate::notification::{CloseReason, Urgency};

verus! {

/// Owned hint value for cross-thread transfer.
#[derive(Debug, Clone)]
pub enum OwnedHintValue {
    Byte(u8),
    Int32(i32),
    String(String),
    Bool(bool),
    ImageData {
        width: i32,
        height: i32,
        rowstride: i32,
        has_alpha: bool,
        bits_per_sample: i32,
        channels: i32,
        data: Vec<u8>,
    },
}

/// Signals sent from the main thread back to the D-Bus thread for emission.
#[derive(Debug, Clone)]
pub enum DbusSignal {
    NotificationClosed { id: u32, reason: CloseReason },
    ActionInvoked { id: u32, action_key: String },
}

/// The version that the daemon reports for itself.
pub const PKG_VERSION: &'static str = "0.1.0";

/// What `GetServerInformation` answers.
#[derive(Debug, Clone)]
pub struct ServerInfo {
    pub name: String,
    pub vendor: String,
    pub version: String,
    pub spec_version: String,
}

impl Default for ServerInfo {
    fn default() -> (info: Self)
        ensures
            info.name@ == "notiser"@,
            info.vendor@ == "notiser"@,
            info.version@ == PKG_VERSION@,
            info.spec_version@ == "1.2"@,
    {
        ServerInfo {
            name: String::from_str("notiser"),
            vendor: String::from_str("notiser"),
            version: String::from_str(PKG_VERSION),
            spec_version: String::from_str("1.2"),
        }
    }
}

/// A notification as listed to clients and kept in history.
#[derive(Debug, Clone)]
pub struct NotificationSummary {
    pub id: u32,
    pub app_name: String,
    pub summary: String,
    pub body: String,
    pub urgency: String,
    pub timestamp: u64,
}

/// The content of a `NotificationSummary`, strings as character sequences.
pub struct SummaryView {
    pub id: u32,
    pub app_name: Seq<char>,
    pub summary: Seq<char>,
    pub body: Seq<char>,
    pub urgency: Seq<char>,
    pub timestamp: u64,
}

impl View for NotificationSummary {
    type V = SummaryView;

    open spec fn view(&self) -> SummaryView {
        SummaryView {
            id: self.id,
            app_name: self.app_name@,
            summary: self.summary@,
            body: self.body@,
            urgency: self.urgency@,
            timestamp: self.timestamp,
        }
    }
}

impl NotificationSummary {
    /// A copy with the same content.
    pub fn duplicate(&self) -> (r: NotificationSummary)
        ensures
            r@ == self@,
    {
        NotificationSummary {
            id: self.id,
            app_name: self.app_name.clone(),
            summary: self.summary.clone(),
            body: self.body.clone(),
            urgency: self.urgency.clone(),
            timestamp: self.timestamp,
        }
    }
}

/// The name under which an urgency is listed (its `Debug` form).
pub open spec fn urgency_name(u: Urgency) -> Seq<char> {
    match u {
        Urgency::Low => "Low"@,
        Urgency::Normal => "Normal"@,
        Urgency::Critical => "Critical"@,
    }
}

pub fn urgency_label(u: Urgency) -> (s: String)
    ensures
        s@ == urgency_name(u),
{
    match u {
        Urgency::Low => String::from_str("Low"),
        Urgency::Normal => String::from_str("Normal"),
        Urgency::Critical => String::from_str("Critical"),
    }
}

} // verus!
