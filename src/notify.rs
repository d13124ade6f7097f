//! Desktop notifications: what to say, at which urgency. Sending is left to the caller.

use vstd::prelude::*;

verus! {

#[derive(Debug, Clone, Copy, PartialEq, Eq, Structural)]
pub enum NotificationLevel {
    Info,
    Warn,
    Error,
}

/// The urgency word of a notification level.
pub open spec fn urgency_of(l: NotificationLevel) -> Seq<char> {
    match l {
        NotificationLevel::Info => "low"@,
        NotificationLevel::Warn => "normal"@,
        NotificationLevel::Error => "critical"@,
    }
}

impl NotificationLevel {
    pub fn to_urgency(&self) -> (r: &'static str)
        ensures
            r@ == urgency_of(*self),
    {
        proof {
            reveal_strlit("low");
            reveal_strlit("normal");
            reveal_strlit("critical");
        }
        match self {
            NotificationLevel::Info => "low",
            NotificationLevel::Warn => "normal",
            NotificationLevel::Error => "critical",
        }
    }
}

/// A notification to show: level, summary, body and icon (a name or an image path).
#[derive(Debug, Clone)]
pub struct Notification {
    pub level: NotificationLevel,
    pub summary: String,
    pub body: String,
    pub icon: String,
}

} // verus!
