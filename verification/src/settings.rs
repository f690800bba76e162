//! The part of the configuration that the notification bar follows.

use crate::severity::LogSeverity;
use vstd::prelude::*;

verus! {

/// A snapshot of the logging settings that concern the bar.
#[derive(Clone, Copy, Debug, PartialEq, Eq, Structural)]
pub struct NotificationSettings {
    /// Events from outside the dashboard below this severity are not shown.
    pub notification_level: LogSeverity,
    /// Whether a tip is shown while no notification is pending.
    pub show_notification_tip: bool,
}

} // verus!
