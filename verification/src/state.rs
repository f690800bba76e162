//! The mathematical model of the bar: its state and the three transitions
//! that change it.

use crate::clock::TIMEOUT_NANOS;
use crate::settings::NotificationSettings;
use crate::severity::LogSeverity;
use crate::tips::{labelled, NO_NOTIFICATIONS_MESSAGE};
use vstd::prelude::*;

verus! {

/// The state of a notification bar. Times are nanoseconds on the bar's clock.
pub struct NotificationState {
    /// The text on display.
    pub message: Seq<char>,
    /// The severity of the text on display; `Debug` for the idle text or a tip.
    pub current_level: LogSeverity,
    /// When the text on display was accepted.
    pub receive_instant: nat,
    /// Events from outside the dashboard below this severity are dropped.
    pub min_notification_level: LogSeverity,
    /// The selected tip with its label, while the tip feature is on.
    pub tip_message: Option<Seq<char>>,
    /// Whether the bar shows its text in full.
    pub expanded: bool,
    /// Whether the dashboard was built for development.
    pub development_build: bool,
}

impl NotificationState {
    /// A fresh bar: the idle text at `Debug`, accepted at time zero, with
    /// nothing filtered, no tip and the bar collapsed.
    pub open spec fn initial(development_build: bool) -> NotificationState {
        NotificationState {
            message: NO_NOTIFICATIONS_MESSAGE@,
            current_level: LogSeverity::Debug,
            receive_instant: 0,
            min_notification_level: LogSeverity::Debug,
            tip_message: None,
            expanded: false,
            development_build,
        }
    }

    /// The least severity that an event of the given origin needs to be
    /// considered at all. The dashboard's own events are held to `Debug` in a
    /// development build and to `Info` otherwise; all others to the
    /// configured level.
    pub open spec fn admission_threshold(self, from_dashboard: bool) -> LogSeverity {
        if from_dashboard {
            if self.development_build {
                LogSeverity::Debug
            } else {
                LogSeverity::Info
            }
        } else {
            self.min_notification_level
        }
    }

    /// Whether an event of this severity and origin passes admission.
    pub open spec fn admits(self, severity: LogSeverity, from_dashboard: bool) -> bool {
        severity.at_least(self.admission_threshold(from_dashboard))
    }

    /// Whether the text on display has been there for more than the timeout.
    pub open spec fn expired(self, now: nat) -> bool {
        now > self.receive_instant + TIMEOUT_NANOS
    }

    /// Whether an event that arrives at `now` replaces the text on display:
    /// it passes admission, and the display has expired or the event is at
    /// least as severe as what is shown.
    pub open spec fn accepts(self, severity: LogSeverity, from_dashboard: bool, now: nat) -> bool {
        self.admits(severity, from_dashboard) && (self.expired(now) || severity.at_least(
            self.current_level,
        ))
    }

    /// The state after an event arrived at `now`. An accepted event takes
    /// over text, level and time of acceptance; any other changes nothing.
    pub open spec fn pushed(
        self,
        severity: LogSeverity,
        content: Seq<char>,
        from_dashboard: bool,
        now: nat,
    ) -> NotificationState {
        if self.accepts(severity, from_dashboard, now) {
            NotificationState {
                message: content,
                current_level: severity,
                receive_instant: now,
                ..self
            }
        } else {
            self
        }
    }

    /// The text that the bar falls back to: the tip if one is selected, the
    /// idle text if not.
    pub open spec fn fallback_text(self) -> Seq<char> {
        match self.tip_message {
            Some(tip) => tip,
            None => NO_NOTIFICATIONS_MESSAGE@,
        }
    }

    /// The state after a render tick at `now`. Once the display has expired
    /// it shows the fallback text at `Debug`; the time of acceptance stays.
    pub open spec fn decayed(self, now: nat) -> NotificationState {
        if self.expired(now) {
            NotificationState {
                message: self.fallback_text(),
                current_level: LogSeverity::Debug,
                ..self
            }
        } else {
            self
        }
    }

    /// The tip after a settings refresh for which `picked` came out of the
    /// catalog. With the feature off there is none. With it on, a tip that is
    /// already selected stays, and otherwise the pick is stored under its
    /// label.
    pub open spec fn refreshed_tip(
        self,
        show_notification_tip: bool,
        picked: Option<Seq<char>>,
    ) -> Option<Seq<char>> {
        if !show_notification_tip {
            None
        } else if self.tip_message is Some {
            self.tip_message
        } else {
            match picked {
                Some(tip) => Some(labelled(tip)),
                None => None,
            }
        }
    }

    /// The state after a settings refresh for which `picked` came out of the
    /// catalog.
    pub open spec fn with_settings(
        self,
        settings: NotificationSettings,
        picked: Option<Seq<char>>,
    ) -> NotificationState {
        NotificationState {
            min_notification_level: settings.notification_level,
            tip_message: self.refreshed_tip(settings.show_notification_tip, picked),
            ..self
        }
    }

    /// The state after the user pressed `Expand` (`true`) or `Reduce`.
    pub open spec fn with_expanded(self, expanded: bool) -> NotificationState {
        NotificationState { expanded, ..self }
    }
}

} // verus!
