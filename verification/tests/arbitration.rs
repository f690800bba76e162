use notification_bar::clock::TIMEOUT_NANOS;
use notification_bar::tips::NO_NOTIFICATIONS_MESSAGE;
use notification_bar::{LogEntry, LogSeverity, NotificationBar, NotificationSettings};

const SECOND: u128 = 1_000_000_000;

const SEVERITIES: [LogSeverity; 4] = [
    LogSeverity::Debug,
    LogSeverity::Info,
    LogSeverity::Warning,
    LogSeverity::Error,
];

fn entry(severity: LogSeverity, content: &str) -> LogEntry {
    LogEntry {
        severity,
        content: content.to_string(),
    }
}

fn bar_with_level(development_build: bool, level: LogSeverity) -> NotificationBar {
    let mut bar = NotificationBar::new(development_build);
    bar.update_settings_with(
        &NotificationSettings {
            notification_level: level,
            show_notification_tip: false,
        },
        None,
    );
    bar
}

#[test]
fn timeout_is_five_seconds() {
    assert_eq!(TIMEOUT_NANOS, 5_000_000_000);
    assert_eq!(TIMEOUT_NANOS, 5 * SECOND);
}

#[test]
fn fresh_bar_shows_idle_text_at_debug() {
    let bar = NotificationBar::new(false);
    assert_eq!(bar.message(), "No new notifications");
    assert_eq!(bar.message(), NO_NOTIFICATIONS_MESSAGE);
    assert_eq!(bar.current_level(), LogSeverity::Debug);
    assert_eq!(bar.receive_instant(), 0);
    assert_eq!(bar.min_notification_level(), LogSeverity::Debug);
    assert_eq!(bar.tip_message(), None);
    assert!(!bar.is_expanded());
    assert!(!bar.is_development_build());
    assert!(NotificationBar::new(true).is_development_build());
}

#[test]
fn error_holds_against_info_until_the_timeout() {
    let mut bar = bar_with_level(false, LogSeverity::Info);
    assert_eq!(bar.message(), "No new notifications");
    assert_eq!(bar.current_level(), LogSeverity::Debug);

    bar.push_notification_at(entry(LogSeverity::Error, "GPU error"), false, 0);
    assert_eq!(bar.message(), "GPU error");
    assert_eq!(bar.current_level(), LogSeverity::Error);
    assert_eq!(bar.receive_instant(), 0);

    bar.push_notification_at(entry(LogSeverity::Info, "info msg"), false, 2 * SECOND);
    assert_eq!(bar.message(), "GPU error");
    assert_eq!(bar.current_level(), LogSeverity::Error);
    assert_eq!(bar.receive_instant(), 0);

    let frame = bar.ui_at(6 * SECOND);
    assert_eq!(frame.text, "No new notifications");
    assert_eq!(bar.message(), "No new notifications");
    assert_eq!(bar.current_level(), LogSeverity::Debug);
    assert_eq!(bar.receive_instant(), 0);
}

#[test]
fn error_times_out_into_the_tip_when_one_is_selected() {
    let mut bar = NotificationBar::new(false);
    bar.update_settings_with(
        &NotificationSettings {
            notification_level: LogSeverity::Info,
            show_notification_tip: true,
        },
        Some("keep calm"),
    );
    bar.push_notification_at(entry(LogSeverity::Error, "GPU error"), false, 0);
    bar.push_notification_at(entry(LogSeverity::Info, "info msg"), false, 2 * SECOND);
    assert_eq!(bar.message(), "GPU error");
    let frame = bar.ui_at(6 * SECOND);
    assert_eq!(frame.text, "Tip: keep calm");
    assert_eq!(bar.message(), "Tip: keep calm");
    assert_eq!(bar.current_level(), LogSeverity::Debug);
}

#[test]
fn dashboard_events_pass_in_a_development_build_whatever_the_level() {
    for severity in SEVERITIES {
        let mut bar = bar_with_level(true, LogSeverity::Error);
        bar.push_notification_at(entry(severity, "from the dashboard"), true, SECOND);
        assert_eq!(bar.message(), "from the dashboard");
        assert_eq!(bar.current_level(), severity);
        assert_eq!(bar.receive_instant(), SECOND);
    }
}

#[test]
fn dashboard_events_need_info_in_a_production_build() {
    let mut bar = bar_with_level(false, LogSeverity::Error);
    bar.push_notification_at(entry(LogSeverity::Debug, "chatter"), true, SECOND);
    assert_eq!(bar.message(), "No new notifications");
    assert_eq!(bar.receive_instant(), 0);

    bar.push_notification_at(entry(LogSeverity::Debug, "late chatter"), true, 60 * SECOND);
    assert_eq!(bar.message(), "No new notifications");

    bar.push_notification_at(entry(LogSeverity::Info, "saved"), true, SECOND);
    assert_eq!(bar.message(), "saved");
    assert_eq!(bar.current_level(), LogSeverity::Info);
    assert_eq!(bar.receive_instant(), SECOND);
}

#[test]
fn dashboard_debug_events_are_dropped_in_production_even_at_debug_level() {
    let mut bar = bar_with_level(false, LogSeverity::Debug);
    bar.push_notification_at(entry(LogSeverity::Debug, "chatter"), true, SECOND);
    assert_eq!(bar.message(), "No new notifications");
    bar.push_notification_at(entry(LogSeverity::Debug, "outside chatter"), false, SECOND);
    assert_eq!(bar.message(), "outside chatter");
}

#[test]
fn outside_events_below_the_configured_level_are_dropped_at_any_time() {
    for development_build in [false, true] {
        for (level_rank, level) in SEVERITIES.iter().enumerate() {
            for (rank, severity) in SEVERITIES.iter().enumerate() {
                for now in [0, 1, 5 * SECOND, 5 * SECOND + 1, 3600 * SECOND, u128::MAX] {
                    let mut bar = bar_with_level(development_build, *level);
                    bar.push_notification_at(entry(*severity, "event"), false, now);
                    if rank < level_rank {
                        assert_eq!(bar.message(), "No new notifications");
                        assert_eq!(bar.current_level(), LogSeverity::Debug);
                        assert_eq!(bar.receive_instant(), 0);
                    } else {
                        assert_eq!(bar.message(), "event");
                        assert_eq!(bar.current_level(), *severity);
                        assert_eq!(bar.receive_instant(), now);
                    }
                }
            }
        }
    }
}

#[test]
fn at_least_as_severe_event_preempts_at_any_time() {
    for (first_rank, first) in SEVERITIES.iter().enumerate() {
        for (second_rank, second) in SEVERITIES.iter().enumerate() {
            if second_rank < first_rank {
                continue;
            }
            for delay in [0, 1, SECOND, 5 * SECOND, 5 * SECOND + 1, 100 * SECOND] {
                let mut bar = NotificationBar::new(false);
                bar.push_notification_at(entry(*first, "first"), false, 7 * SECOND);
                assert_eq!(bar.message(), "first");
                bar.push_notification_at(entry(*second, "second"), false, 7 * SECOND + delay);
                assert_eq!(bar.message(), "second");
                assert_eq!(bar.current_level(), *second);
                assert_eq!(bar.receive_instant(), 7 * SECOND + delay);
            }
        }
    }
}

#[test]
fn equally_severe_event_replaces_the_one_on_display() {
    let mut bar = NotificationBar::new(false);
    bar.push_notification_at(entry(LogSeverity::Warning, "first"), false, SECOND);
    bar.push_notification_at(entry(LogSeverity::Warning, "second"), false, SECOND);
    assert_eq!(bar.message(), "second");
    bar.push_notification_at(entry(LogSeverity::Warning, "third"), false, SECOND + 1);
    assert_eq!(bar.message(), "third");
    assert_eq!(bar.receive_instant(), SECOND + 1);
}

#[test]
fn less_severe_event_is_dropped_within_the_timeout() {
    for (first_rank, first) in SEVERITIES.iter().enumerate() {
        for (second_rank, second) in SEVERITIES.iter().enumerate() {
            if second_rank >= first_rank {
                continue;
            }
            for delay in [0, 1, SECOND, 5 * SECOND - 1, 5 * SECOND] {
                let mut bar = NotificationBar::new(false);
                bar.push_notification_at(entry(*first, "first"), false, 7 * SECOND);
                bar.push_notification_at(entry(*second, "second"), false, 7 * SECOND + delay);
                assert_eq!(bar.message(), "first");
                assert_eq!(bar.current_level(), *first);
                assert_eq!(bar.receive_instant(), 7 * SECOND);
            }
        }
    }
}

#[test]
fn less_severe_event_is_shown_once_the_timeout_has_passed() {
    let mut bar = NotificationBar::new(false);
    bar.push_notification_at(entry(LogSeverity::Error, "first"), false, 7 * SECOND);
    bar.push_notification_at(entry(LogSeverity::Debug, "second"), false, 12 * SECOND);
    assert_eq!(bar.message(), "first");
    bar.push_notification_at(entry(LogSeverity::Debug, "second"), false, 12 * SECOND + 1);
    assert_eq!(bar.message(), "second");
    assert_eq!(bar.current_level(), LogSeverity::Debug);
    assert_eq!(bar.receive_instant(), 12 * SECOND + 1);
}

#[test]
fn event_with_an_earlier_time_counts_as_within_the_timeout() {
    let mut bar = NotificationBar::new(false);
    bar.push_notification_at(entry(LogSeverity::Error, "first"), false, 10 * SECOND);
    bar.push_notification_at(entry(LogSeverity::Info, "second"), false, SECOND);
    assert_eq!(bar.message(), "first");
    let frame = bar.ui_at(0);
    assert_eq!(frame.text, "first");
    bar.push_notification_at(entry(LogSeverity::Error, "third"), false, SECOND);
    assert_eq!(bar.message(), "third");
    assert_eq!(bar.receive_instant(), SECOND);
}

#[test]
fn times_at_the_end_of_the_range_do_not_overflow() {
    let mut bar = NotificationBar::new(false);
    bar.push_notification_at(entry(LogSeverity::Error, "first"), false, u128::MAX - 1);
    assert_eq!(bar.receive_instant(), u128::MAX - 1);
    bar.push_notification_at(entry(LogSeverity::Info, "second"), false, u128::MAX);
    assert_eq!(bar.message(), "first");
    let frame = bar.ui_at(u128::MAX);
    assert_eq!(frame.text, "first");
    assert_eq!(bar.current_level(), LogSeverity::Error);
}

#[test]
fn tick_falls_back_only_after_more_than_the_timeout() {
    let mut bar = NotificationBar::new(false);
    bar.push_notification_at(entry(LogSeverity::Warning, "careful"), false, 3 * SECOND);

    let frame = bar.ui_at(3 * SECOND);
    assert_eq!(frame.text, "careful");
    let frame = bar.ui_at(8 * SECOND - 1);
    assert_eq!(frame.text, "careful");
    let frame = bar.ui_at(8 * SECOND);
    assert_eq!(frame.text, "careful");
    assert_eq!(bar.current_level(), LogSeverity::Warning);

    let frame = bar.ui_at(8 * SECOND + 1);
    assert_eq!(frame.text, "No new notifications");
    assert_eq!(bar.message(), "No new notifications");
    assert_eq!(bar.current_level(), LogSeverity::Debug);
    assert_eq!(bar.receive_instant(), 3 * SECOND);
}

#[test]
fn tick_after_the_timeout_is_idempotent() {
    let mut bar = NotificationBar::new(false);
    bar.update_settings_with(
        &NotificationSettings {
            notification_level: LogSeverity::Debug,
            show_notification_tip: true,
        },
        Some("first tip"),
    );
    bar.push_notification_at(entry(LogSeverity::Info, "hello"), false, SECOND);
    for now in [7 * SECOND, 7 * SECOND, 8 * SECOND, 1000 * SECOND] {
        let frame = bar.ui_at(now);
        assert_eq!(frame.text, "Tip: first tip");
        assert_eq!(bar.current_level(), LogSeverity::Debug);
        assert_eq!(bar.receive_instant(), SECOND);
    }
}

#[test]
fn tick_follows_a_tip_that_is_turned_off_after_the_timeout() {
    let mut bar = NotificationBar::new(false);
    let mut settings = NotificationSettings {
        notification_level: LogSeverity::Debug,
        show_notification_tip: true,
    };
    bar.update_settings_with(&settings, Some("first tip"));
    assert_eq!(bar.ui_at(6 * SECOND).text, "Tip: first tip");
    settings.show_notification_tip = false;
    bar.update_settings_with(&settings, None);
    assert_eq!(bar.message(), "Tip: first tip");
    assert_eq!(bar.ui_at(6 * SECOND).text, "No new notifications");
}

#[test]
fn fresh_bar_falls_back_to_a_tip_selected_later() {
    let mut bar = NotificationBar::new(false);
    assert_eq!(bar.ui_at(SECOND).text, "No new notifications");
    bar.update_settings_with(
        &NotificationSettings {
            notification_level: LogSeverity::Debug,
            show_notification_tip: true,
        },
        Some("late tip"),
    );
    assert_eq!(bar.ui_at(5 * SECOND).text, "No new notifications");
    assert_eq!(bar.ui_at(5 * SECOND + 1).text, "Tip: late tip");
}

#[test]
fn event_after_a_fallback_is_shown_and_restarts_the_timer() {
    let mut bar = NotificationBar::new(false);
    bar.push_notification_at(entry(LogSeverity::Error, "first"), false, 0);
    bar.ui_at(6 * SECOND);
    bar.push_notification_at(entry(LogSeverity::Debug, "second"), false, 6 * SECOND);
    assert_eq!(bar.message(), "second");
    assert_eq!(bar.receive_instant(), 6 * SECOND);
    assert_eq!(bar.ui_at(11 * SECOND).text, "second");
    assert_eq!(bar.ui_at(11 * SECOND + 1).text, "No new notifications");
}

#[test]
fn event_on_the_clock_is_shown_when_it_outranks_the_display() {
    let mut bar = NotificationBar::new(false);
    bar.push_notification(entry(LogSeverity::Warning, "disk almost full"), false);
    assert_eq!(bar.message(), "disk almost full");
    assert_eq!(bar.current_level(), LogSeverity::Warning);
    bar.push_notification(entry(LogSeverity::Error, "disk full"), false);
    assert_eq!(bar.message(), "disk full");
    assert_eq!(bar.current_level(), LogSeverity::Error);
    let accepted_at = bar.receive_instant();
    bar.push_notification(entry(LogSeverity::Info, "still there"), false);
    assert_eq!(bar.message(), "disk full");
    assert_eq!(bar.receive_instant(), accepted_at);
    let frame = bar.ui();
    assert_eq!(frame.text, "disk full");
    assert_eq!(bar.current_level(), LogSeverity::Error);
}

#[test]
fn clock_of_the_bar_does_not_run_backwards() {
    let mut bar = NotificationBar::new(false);
    bar.push_notification(entry(LogSeverity::Info, "one"), false);
    let first = bar.receive_instant();
    bar.push_notification(entry(LogSeverity::Info, "two"), false);
    let second = bar.receive_instant();
    assert!(first <= second);
    assert!(second < 20 * SECOND);
}

#[test]
fn event_on_the_clock_below_the_configured_level_is_dropped() {
    let mut bar = bar_with_level(true, LogSeverity::Warning);
    bar.push_notification(entry(LogSeverity::Info, "quiet"), false);
    assert_eq!(bar.message(), "No new notifications");
    assert_eq!(bar.receive_instant(), 0);
    bar.push_notification(entry(LogSeverity::Debug, "from the dashboard"), true);
    assert_eq!(bar.message(), "from the dashboard");
}
