//! The notification bar: the state that decides which message is on display.

use crate::appearance::{style, style_for, BarControl, NotificationFrame};
use crate::clock::{elapsed_nanos, start_clock, TIMEOUT_NANOS};
use crate::settings::NotificationSettings;
use crate::severity::{LogEntry, LogSeverity};
use crate::state::NotificationState;
use crate::tips::{choose_tip, label_tip, tip_catalog, NOTIFICATION_TIPS, NO_NOTIFICATIONS_MESSAGE};
use instant::Instant;
use vstd::prelude::*;

verus! {

/// The bar at the bottom of the dashboard. It shows one message at a time.
pub struct NotificationBar {
    message: String,
    current_level: LogSeverity,
    receive_instant: u128,
    min_notification_level: LogSeverity,
    tip_message: Option<String>,
    expanded: bool,
    development_build: bool,
    origin: Instant,
}

impl View for NotificationBar {
    type V = NotificationState;

    closed spec fn view(&self) -> NotificationState {
        NotificationState {
            message: self.message@,
            current_level: self.current_level,
            receive_instant: self.receive_instant as nat,
            min_notification_level: self.min_notification_level,
            tip_message: match self.tip_message {
                Some(tip) => Some(tip@),
                None => None,
            },
            expanded: self.expanded,
            development_build: self.development_build,
        }
    }
}

impl NotificationBar {
    /// A fresh bar, whose clock starts now: it shows the idle text at
    /// `Debug`, filters nothing, has no tip and is collapsed.
    ///
    /// `development_build` says whether the dashboard was built for
    /// development, where its own events are admitted from `Debug` on.
    pub fn new(development_build: bool) -> (bar: Self)
        ensures
            bar@ == NotificationState::initial(development_build),
    {
        Self {
            message: NO_NOTIFICATIONS_MESSAGE.to_owned(),
            current_level: LogSeverity::Debug,
            receive_instant: 0,
            min_notification_level: LogSeverity::Debug,
            tip_message: None,
            expanded: false,
            development_build,
            origin: start_clock(),
        }
    }

    /// Whether more than the timeout has passed at `now` since the text on
    /// display was accepted.
    fn has_expired(&self, now: u128) -> (expired: bool)
        ensures
            expired == self@.expired(now as nat),
    {
        now > self.receive_instant && now - self.receive_instant > TIMEOUT_NANOS
    }

    /// The render tick at time `now`, in nanoseconds on the bar's clock.
    ///
    /// Once the text on display is older than the timeout, the bar falls back
    /// to the tip, or to the idle text where no tip is selected, at `Debug`.
    /// The time of acceptance is left alone, so later ticks find the display
    /// expired again and choose the same fallback. The frame that comes back
    /// holds the text now on display and the style for its level and for the
    /// expanded flag.
    pub fn ui_at(&mut self, now: u128) -> (frame: NotificationFrame)
        ensures
            final(self)@ == old(self)@.decayed(now as nat),
            frame.text@ == final(self)@.message,
            frame.style == style_for(final(self)@.current_level, final(self)@.expanded),
    {
        if self.has_expired(now) {
            self.message = match &self.tip_message {
                Some(tip) => tip.clone(),
                None => NO_NOTIFICATIONS_MESSAGE.to_owned(),
            };
            self.current_level = LogSeverity::Debug;
        }
        NotificationFrame {
            text: self.message.clone(),
            style: style(self.current_level, self.expanded),
        }
    }

    /// The render tick at the present time of the bar's clock.
    ///
    /// What the clock reads is not known beforehand: the bar ends as
    /// [`NotificationBar::ui_at`] leaves it for some time `now`, and the
    /// frame shows the bar as it then is.
    pub fn ui(&mut self) -> (frame: NotificationFrame)
        ensures
            exists|now: nat| final(self)@ == #[trigger] old(self)@.decayed(now),
            frame.text@ == final(self)@.message,
            frame.style == style_for(final(self)@.current_level, final(self)@.expanded),
    {
        let now: u128 = elapsed_nanos(&self.origin);
        self.ui_at(now)
    }

    /// The least severity that an event of the given origin needs to be
    /// considered.
    fn min_severity(&self, from_dashboard: bool) -> (threshold: LogSeverity)
        ensures
            threshold == self@.admission_threshold(from_dashboard),
    {
        if from_dashboard {
            if self.development_build {
                LogSeverity::Debug
            } else {
                LogSeverity::Info
            }
        } else {
            self.min_notification_level
        }
    }

    /// Takes in an event that arrives at time `now`, in nanoseconds on the
    /// bar's clock.
    ///
    /// The event is shown if it passes admission for its origin and either
    /// the text on display is older than the timeout or the event is at least
    /// as severe as that text. It then takes over text, level and time of
    /// acceptance. Any other event is dropped and leaves the bar as it was.
    pub fn push_notification_at(&mut self, event: LogEntry, from_dashboard: bool, now: u128)
        ensures
            final(self)@ == old(self)@.pushed(
                event.severity,
                event.content@,
                from_dashboard,
                now as nat,
            ),
    {
        let min_severity = self.min_severity(from_dashboard);

        if event.severity >= min_severity && (self.has_expired(now) || event.severity
            >= self.current_level) {
            self.message = event.content;
            self.current_level = event.severity;
            self.receive_instant = now;
        }
    }

    /// Takes in an event that arrives at the present time of the bar's clock.
    ///
    /// What the clock reads is not known beforehand: the bar ends as
    /// [`NotificationBar::push_notification_at`] leaves it for some time
    /// `now`.
    pub fn push_notification(&mut self, event: LogEntry, from_dashboard: bool)
        ensures
            exists|now: nat|
                final(self)@ == #[trigger] old(self)@.pushed(
                    event.severity,
                    event.content@,
                    from_dashboard,
                    now,
                ),
    {
        let now: u128 = elapsed_nanos(&self.origin);
        self.push_notification_at(event, from_dashboard, now)
    }

    /// Follows a settings snapshot, with `picked` as the tip that came out
    /// of the catalog.
    ///
    /// The threshold for events from outside the dashboard becomes the
    /// configured level. With the tip feature off the tip is dropped. With it
    /// on, a tip that is already selected stays, and otherwise `picked` is
    /// stored under the tip label. Nothing else changes.
    pub fn update_settings_with(&mut self, settings: &NotificationSettings, picked: Option<&str>)
        ensures
            final(self)@ == old(self)@.with_settings(
                *settings,
                match picked {
                    Some(tip) => Some(tip@),
                    None => None,
                },
            ),
    {
        self.min_notification_level = settings.notification_level;

        if settings.show_notification_tip {
            if self.tip_message.is_none() {
                self.tip_message = match picked {
                    Some(tip) => Some(label_tip(tip)),
                    None => None,
                };
            }
        } else {
            self.tip_message = None;
        }
    }

    /// Follows a settings snapshot. Where a tip is due, one is drawn at
    /// random from the catalog.
    ///
    /// Which tip is drawn is not known beforehand: the bar ends as
    /// [`NotificationBar::update_settings_with`] leaves it for some entry of
    /// the catalog. Where no tip is due the entry makes no difference.
    pub fn update_settings(&mut self, settings: &NotificationSettings)
        ensures
            exists|i: int|
                0 <= i < tip_catalog().len() && final(self)@ == #[trigger] old(self)@.with_settings(
                    *settings,
                    Some(tip_catalog()[i]),
                ),
    {
        if settings.show_notification_tip && self.tip_message.is_none() {
            let picked = choose_tip(&NOTIFICATION_TIPS);
            let ghost i = choose|i: int|
                0 <= i < NOTIFICATION_TIPS@.len() && picked.unwrap()@ == (
                #[trigger] NOTIFICATION_TIPS@[i])@;
            self.update_settings_with(settings, picked);
            assert(final(self)@ == old(self)@.with_settings(*settings, Some(tip_catalog()[i])));
        } else {
            self.update_settings_with(settings, None);
            assert(final(self)@ == old(self)@.with_settings(*settings, Some(tip_catalog()[0])));
        }
    }

    /// The user pressed the button that the bar offers: `Expand` shows the
    /// text in full, `Reduce` collapses the bar. Nothing else changes.
    pub fn apply_control(&mut self, control: BarControl)
        ensures
            final(self)@ == old(self)@.with_expanded(control == BarControl::Expand),
    {
        match control {
            BarControl::Expand => {
                self.expanded = true;
            },
            BarControl::Reduce => {
                self.expanded = false;
            },
        }
    }

    /// The text on display.
    pub fn message(&self) -> (text: &str)
        ensures
            text@ == self@.message,
    {
        self.message.as_str()
    }

    /// The severity of the text on display.
    pub fn current_level(&self) -> (level: LogSeverity)
        ensures
            level == self@.current_level,
    {
        self.current_level
    }

    /// When the text on display was accepted, in nanoseconds on the bar's
    /// clock.
    pub fn receive_instant(&self) -> (nanos: u128)
        ensures
            nanos == self@.receive_instant,
    {
        self.receive_instant
    }

    /// The severity below which events from outside the dashboard are
    /// dropped.
    pub fn min_notification_level(&self) -> (level: LogSeverity)
        ensures
            level == self@.min_notification_level,
    {
        self.min_notification_level
    }

    /// The selected tip with its label, if the tip feature is on.
    pub fn tip_message(&self) -> (tip: Option<&str>)
        ensures
            tip is Some == self@.tip_message is Some,
            tip matches Some(text) ==> text@ == self@.tip_message.unwrap(),
    {
        match &self.tip_message {
            Some(text) => Some(text.as_str()),
            None => None,
        }
    }

    /// Whether the bar shows its text in full.
    pub fn is_expanded(&self) -> (expanded: bool)
        ensures
            expanded == self@.expanded,
    {
        self.expanded
    }

    /// Whether the bar was made for a development build of the dashboard.
    pub fn is_development_build(&self) -> (development_build: bool)
        ensures
            development_build == self@.development_build,
    {
        self.development_build
    }
}

} // verus!
