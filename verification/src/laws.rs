//! What holds of the bar over every state, event and time.

use crate::clock::TIMEOUT_NANOS;
use crate::settings::NotificationSettings;
use crate::severity::LogSeverity;
use crate::state::NotificationState;
use crate::tips::{
    labelled, lemma_catalog_offers_a_choice, lemma_label_is_injective, tip_catalog,
    NO_NOTIFICATIONS_MESSAGE,
};
use vstd::prelude::*;

verus! {

/// An urgent event is never masked by a less urgent one. After an event was
/// accepted, a second event that is at least as severe and passes admission
/// is shown, however little or much time has passed since the first.
pub proof fn law_at_least_as_severe_event_preempts(
    state: NotificationState,
    first_severity: LogSeverity,
    first_content: Seq<char>,
    first_from_dashboard: bool,
    accepted_at: nat,
    second_severity: LogSeverity,
    second_content: Seq<char>,
    second_from_dashboard: bool,
    arrives_at: nat,
)
    requires
        state.accepts(first_severity, first_from_dashboard, accepted_at),
        second_severity.at_least(first_severity),
        state.admits(second_severity, second_from_dashboard),
    ensures
        ({
            let shown = state.pushed(
                first_severity,
                first_content,
                first_from_dashboard,
                accepted_at,
            ).pushed(second_severity, second_content, second_from_dashboard, arrives_at);
            &&& shown.message == second_content
            &&& shown.current_level == second_severity
            &&& shown.receive_instant == arrives_at
        }),
{
}

/// Admission goes by origin and severity alone. So after an accepted event,
/// one of the same origin that is at least as severe passes admission too,
/// and is shown whenever it arrives.
pub proof fn law_same_origin_preempts(
    state: NotificationState,
    first_severity: LogSeverity,
    first_content: Seq<char>,
    from_dashboard: bool,
    accepted_at: nat,
    second_severity: LogSeverity,
    second_content: Seq<char>,
    arrives_at: nat,
)
    requires
        state.accepts(first_severity, from_dashboard, accepted_at),
        second_severity.at_least(first_severity),
    ensures
        state.admits(second_severity, from_dashboard),
        ({
            let shown = state.pushed(
                first_severity,
                first_content,
                from_dashboard,
                accepted_at,
            ).pushed(second_severity, second_content, from_dashboard, arrives_at);
            &&& shown.message == second_content
            &&& shown.current_level == second_severity
            &&& shown.receive_instant == arrives_at
        }),
{
}

/// While the text on display is no older than the timeout, an event less
/// severe than that text is dropped: the bar stays as it is.
pub proof fn law_less_severe_event_waits_out_the_timeout(
    state: NotificationState,
    severity: LogSeverity,
    content: Seq<char>,
    from_dashboard: bool,
    now: nat,
)
    requires
        !severity.at_least(state.current_level),
        now <= state.receive_instant + TIMEOUT_NANOS,
    ensures
        state.pushed(severity, content, from_dashboard, now) == state,
{
}

/// Once the text on display is older than the timeout, any event that passes
/// admission is shown, even one less severe than that text.
pub proof fn law_expired_display_yields_to_any_admitted_event(
    state: NotificationState,
    severity: LogSeverity,
    content: Seq<char>,
    from_dashboard: bool,
    now: nat,
)
    requires
        state.admits(severity, from_dashboard),
        now > state.receive_instant + TIMEOUT_NANOS,
    ensures
        state.pushed(severity, content, from_dashboard, now) == (NotificationState {
            message: content,
            current_level: severity,
            receive_instant: now,
            ..state
        }),
{
}

/// An event below the threshold of its origin is dropped, whatever the time
/// and whatever is on display.
pub proof fn law_event_below_threshold_is_dropped(
    state: NotificationState,
    severity: LogSeverity,
    content: Seq<char>,
    from_dashboard: bool,
    now: nat,
)
    requires
        !severity.at_least(state.admission_threshold(from_dashboard)),
    ensures
        state.pushed(severity, content, from_dashboard, now) == state,
{
}

/// An event from outside the dashboard that is below the configured level is
/// dropped, whatever the time and whatever is on display.
pub proof fn law_event_below_configured_level_is_dropped(
    state: NotificationState,
    severity: LogSeverity,
    content: Seq<char>,
    now: nat,
)
    requires
        !severity.at_least(state.min_notification_level),
    ensures
        state.pushed(severity, content, false, now) == state,
{
}

/// In a development build every event of the dashboard itself passes
/// admission, whatever the configured level. In any other build those from
/// `Info` on do.
pub proof fn law_dashboard_events_bypass_the_configured_level(
    state: NotificationState,
    severity: LogSeverity,
)
    ensures
        state.development_build ==> state.admits(severity, true),
        !state.development_build ==> (state.admits(severity, true) <==> severity
            != LogSeverity::Debug),
{
}

/// An event changes neither the settings of the bar nor its tip, shown or
/// dropped.
pub proof fn law_event_leaves_settings_alone(
    state: NotificationState,
    severity: LogSeverity,
    content: Seq<char>,
    from_dashboard: bool,
    now: nat,
)
    ensures
        ({
            let next = state.pushed(severity, content, from_dashboard, now);
            &&& next.min_notification_level == state.min_notification_level
            &&& next.tip_message == state.tip_message
            &&& next.expanded == state.expanded
            &&& next.development_build == state.development_build
            &&& next == state || (next.message == content && next.current_level == severity
                && next.receive_instant == now)
        }),
{
}

/// A render tick later than the timeout after the text on display was
/// accepted replaces it by the tip, or by the idle text where no tip is
/// selected, and sets the level to `Debug`. Nothing else changes, the time
/// of acceptance included.
pub proof fn law_tick_after_timeout_falls_back(state: NotificationState, now: nat)
    requires
        now > state.receive_instant + TIMEOUT_NANOS,
    ensures
        state.decayed(now) == (NotificationState {
            message: match state.tip_message {
                Some(tip) => tip,
                None => NO_NOTIFICATIONS_MESSAGE@,
            },
            current_level: LogSeverity::Debug,
            ..state
        }),
{
}

/// A render tick no later than the timeout after the text on display was
/// accepted changes nothing.
pub proof fn law_tick_within_timeout_changes_nothing(state: NotificationState, now: nat)
    requires
        now <= state.receive_instant + TIMEOUT_NANOS,
    ensures
        state.decayed(now) == state,
{
}

/// The fallback is a decay, not an event: it does not restart the timer. A
/// tick that follows another finds the same fallback again.
pub proof fn law_tick_is_idempotent(state: NotificationState, now: nat, later: nat)
    requires
        now <= later,
    ensures
        state.decayed(now).receive_instant == state.receive_instant,
        state.decayed(now).decayed(now) == state.decayed(now),
        state.expired(now) ==> state.decayed(now).decayed(later) == state.decayed(now),
{
}

/// With the tip feature off the bar holds no tip.
pub proof fn law_disabled_feature_has_no_tip(
    state: NotificationState,
    settings: NotificationSettings,
    picked: Option<Seq<char>>,
)
    requires
        !settings.show_notification_tip,
    ensures
        state.with_settings(settings, picked).tip_message is None,
{
}

/// A selected tip is sticky: while the feature stays on, no settings refresh
/// changes it, whatever comes out of the catalog.
pub proof fn law_selected_tip_is_sticky(
    state: NotificationState,
    settings: NotificationSettings,
    picked: Option<Seq<char>>,
)
    requires
        state.tip_message is Some,
        settings.show_notification_tip,
    ensures
        state.with_settings(settings, picked).tip_message == state.tip_message,
{
}

/// Turning the feature on twice in a row selects a tip once: the second
/// refresh keeps what the first one selected.
pub proof fn law_enabling_twice_selects_once(
    state: NotificationState,
    first: NotificationSettings,
    first_pick: Seq<char>,
    second: NotificationSettings,
    second_pick: Option<Seq<char>>,
)
    requires
        first.show_notification_tip,
        second.show_notification_tip,
    ensures
        ({
            let selected = state.with_settings(first, Some(first_pick));
            &&& selected.tip_message is Some
            &&& selected.with_settings(second, second_pick).tip_message == selected.tip_message
        }),
{
}

/// A refresh with an unchanged snapshot changes nothing once a tip is
/// selected or the feature is off.
pub proof fn law_refresh_is_idempotent(
    state: NotificationState,
    settings: NotificationSettings,
    first_pick: Option<Seq<char>>,
    second_pick: Option<Seq<char>>,
)
    requires
        settings.show_notification_tip ==> state.tip_message is Some || first_pick is Some,
    ensures
        state.with_settings(settings, first_pick).with_settings(settings, second_pick)
            == state.with_settings(settings, first_pick),
{
}

/// Turning the feature off and on again selects anew: the tip is then the
/// new pick under its label, whatever was selected before.
pub proof fn law_reenabling_selects_anew(
    state: NotificationState,
    off: NotificationSettings,
    unused_pick: Option<Seq<char>>,
    on: NotificationSettings,
    picked: Seq<char>,
)
    requires
        !off.show_notification_tip,
        on.show_notification_tip,
    ensures
        state.with_settings(off, unused_pick).with_settings(on, Some(picked)).tip_message == Some(
            labelled(picked),
        ),
{
}

/// Turning the feature off and on again can change the tip: whatever the bar
/// held before, the catalog has an entry that gives another tip when it is
/// drawn on turning the feature on again.
pub proof fn law_reenabling_can_change_the_tip(
    state: NotificationState,
    off: NotificationSettings,
    on: NotificationSettings,
)
    requires
        !off.show_notification_tip,
        on.show_notification_tip,
    ensures
        exists|i: int|
            0 <= i < tip_catalog().len() && state.with_settings(off, None).with_settings(
                on,
                Some(#[trigger] tip_catalog()[i]),
            ).tip_message != state.tip_message,
{
    lemma_catalog_offers_a_choice();
    let first = tip_catalog()[0];
    let second = tip_catalog()[1];
    let disabled = state.with_settings(off, None);
    if state.tip_message == Some(labelled(first)) {
        if labelled(second) == labelled(first) {
            lemma_label_is_injective(second, first);
        }
        assert(disabled.with_settings(on, Some(tip_catalog()[1])).tip_message
            != state.tip_message);
    } else {
        assert(disabled.with_settings(on, Some(tip_catalog()[0])).tip_message
            != state.tip_message);
    }
}

/// Which tip the bar holds after the feature was turned on goes by the pick
/// alone: two picks give the same tip only if they are the same.
pub proof fn law_tip_follows_the_pick(
    state: NotificationState,
    on: NotificationSettings,
    one_pick: Seq<char>,
    other_pick: Seq<char>,
)
    requires
        state.tip_message is None,
        on.show_notification_tip,
        state.with_settings(on, Some(one_pick)).tip_message == state.with_settings(
            on,
            Some(other_pick),
        ).tip_message,
    ensures
        one_pick == other_pick,
{
    lemma_label_is_injective(one_pick, other_pick);
}

/// A settings refresh changes neither the text on display nor its level or
/// time of acceptance.
pub proof fn law_refresh_leaves_display_alone(
    state: NotificationState,
    settings: NotificationSettings,
    picked: Option<Seq<char>>,
)
    ensures
        ({
            let next = state.with_settings(settings, picked);
            &&& next.message == state.message
            &&& next.current_level == state.current_level
            &&& next.receive_instant == state.receive_instant
            &&& next.expanded == state.expanded
            &&& next.development_build == state.development_build
            &&& next.min_notification_level == settings.notification_level
        }),
{
}

/// Expanding or reducing the bar has no part in the arbitration: the same
/// events are shown and dropped, and the same ticks fall back.
pub proof fn law_expanding_does_not_affect_arbitration(
    state: NotificationState,
    expanded: bool,
    severity: LogSeverity,
    content: Seq<char>,
    from_dashboard: bool,
    now: nat,
)
    ensures
        state.with_expanded(expanded).pushed(severity, content, from_dashboard, now)
            == state.pushed(severity, content, from_dashboard, now).with_expanded(expanded),
        state.with_expanded(expanded).decayed(now) == state.decayed(now).with_expanded(expanded),
{
}

} // verus!
