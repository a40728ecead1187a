//! Small types of the notification protocols.

use vstd::prelude::*;

verus! {

/// Object path of the notification service.
pub const SERVICE_PATH: &'static str = "/org/freedesktop/Notifications";

/// Interface of the notification service.
pub const SERVICE_INTERFACE: &'static str = "org.freedesktop.Notifications";

/// Why a notification was closed.
#[derive(Debug, Clone, Copy, PartialEq, Eq, Structural)]
pub enum ClosedReason {
    /// The notification expired.
    Expired,
    /// The user dismissed the notification.
    DismissedByUser,
    /// The notification was closed by a call of the application.
    Closed,
    /// Any other reason.
    Unknown,
}

impl ClosedReason {
    /// The code of the reason in the `NotificationClosed` signal.
    pub open spec fn spec_code(self) -> u32 {
        match self {
            ClosedReason::Expired => 1,
            ClosedReason::DismissedByUser => 2,
            ClosedReason::Closed => 3,
            ClosedReason::Unknown => 4,
        }
    }

    /// The code of the reason in the `NotificationClosed` signal.
    pub fn code(self) -> (code: u32)
        ensures
            code == self.spec_code(),
    {
        match self {
            ClosedReason::Expired => 1,
            ClosedReason::DismissedByUser => 2,
            ClosedReason::Closed => 3,
            ClosedReason::Unknown => 4,
        }
    }
}

/// Urgency of a notification.
#[derive(Debug, Clone, Copy, PartialEq, Eq, Structural)]
pub enum Urgency {
    /// Low urgency.
    Low,
    /// Normal urgency.
    Normal,
    /// Critical urgency.
    Critical,
}

impl Urgency {
    /// The urgency as the byte of the `urgency` hint.
    pub open spec fn spec_level(self) -> u8 {
        match self {
            Urgency::Low => 0,
            Urgency::Normal => 1,
            Urgency::Critical => 2,
        }
    }

    /// The urgency as the byte of the `urgency` hint.
    pub fn level(self) -> (level: u8)
        ensures
            level == self.spec_level(),
    {
        match self {
            Urgency::Low => 0,
            Urgency::Normal => 1,
            Urgency::Critical => 2,
        }
    }
}

/// Signals of the notification service.
#[derive(Debug, Clone, Copy, PartialEq, Eq, Structural)]
pub enum Signal {
    /// An action of a notification was invoked.
    ActionInvoked,
    /// A notification was closed.
    NotificationClosed,
}

impl Signal {
    /// The member name of the signal.
    pub open spec fn spec_name(self) -> Seq<char> {
        match self {
            Signal::ActionInvoked => "ActionInvoked"@,
            Signal::NotificationClosed => "NotificationClosed"@,
        }
    }

    /// The member name of the signal.
    pub fn as_str(self) -> (name: &'static str)
        ensures
            name@ == self.spec_name(),
    {
        match self {
            Signal::ActionInvoked => "ActionInvoked",
            Signal::NotificationClosed => "NotificationClosed",
        }
    }
}

/// The reasons have the codes of the protocol, and the levels of urgency theirs.
pub proof fn law_codes_are_those_of_the_protocol(reason: ClosedReason, urgency: Urgency)
    ensures
        1 <= reason.spec_code() <= 4,
        reason.spec_code() == 1 <==> reason is Expired,
        reason.spec_code() == 2 <==> reason is DismissedByUser,
        reason.spec_code() == 3 <==> reason is Closed,
        0 <= urgency.spec_level() <= 2,
        urgency.spec_level() == 0 <==> urgency is Low,
        urgency.spec_level() == 2 <==> urgency is Critical,
{
}

} // verus!
