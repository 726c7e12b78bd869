use noruno::clock::{minutes_between, CivilDate, CivilDateTime, Timestamp};
use noruno::notification::{
    calculate_minutes_until_due, decide_reminder, effective_threshold, minutes_until,
    minutes_until_due, parse_due_date, should_notify, DueDateError, ReminderDecision,
};
use noruno::settings::MailSettings;
use noruno::task::Task;
use noruno::text::leading_word;

fn at(secs: i64) -> Timestamp {
    Timestamp { secs, nanos: 0 }
}

fn civil(year: i32, month: u32, day: u32, hour: u32, minute: u32) -> CivilDateTime {
    CivilDateTime { year, month, day, hour, minute, second: 0, nano: 0 }
}

fn task(due_date: &str, notification_minutes: Option<i32>) -> Task {
    Task {
        id: 1,
        description: "Pay rent".to_string(),
        start_date: None,
        due_date: due_date.to_string(),
        group: "Home".to_string(),
        details: "By transfer".to_string(),
        completed: false,
        notified: false,
        notification_minutes,
        subtasks: Vec::new(),
        dependencies: None,
    }
}

/// The instant at which the local clock shows `due_date`, in seconds.
fn instant_of(due_date: &str) -> i64 {
    minutes_until_due(due_date, at(0)).expect("a due date that can be read") * 60
}

#[test]
fn should_notify_holds_both_ends_of_the_window() {
    assert!(should_notify(0, 30));
    assert!(should_notify(30, 30));
    assert!(should_notify(15, 30));
    assert!(!should_notify(31, 30));
    assert!(!should_notify(-1, 30));
    assert!(should_notify(0, 0));
    assert!(!should_notify(1, 0));
}

#[test]
fn should_notify_never_fires_once_overdue() {
    assert!(!should_notify(-1, i32::MAX));
    assert!(!should_notify(-5, 30));
    assert!(!should_notify(-1_000_000, 1440));
    assert!(!should_notify(i64::MIN, i32::MAX));
}

#[test]
fn should_notify_with_a_negative_threshold_never_fires() {
    assert!(!should_notify(0, -1));
    assert!(!should_notify(-1, -1));
    assert!(!should_notify(5, -10));
}

#[test]
fn should_notify_far_ahead() {
    assert!(should_notify(1440, 1440));
    assert!(!should_notify(1441, 1440));
    assert!(!should_notify(i64::MAX, i32::MAX));
    assert!(should_notify(i32::MAX as i64, i32::MAX));
}

#[test]
fn minutes_between_counts_whole_minutes() {
    assert_eq!(minutes_between(at(900), at(0)), 15);
    assert_eq!(minutes_between(at(0), at(0)), 0);
    assert_eq!(minutes_between(at(59), at(0)), 0);
    assert_eq!(minutes_between(at(60), at(0)), 1);
    assert_eq!(minutes_between(at(119), at(0)), 1);
    assert_eq!(minutes_between(at(86_400), at(0)), 1440);
}

#[test]
fn minutes_between_rounds_toward_zero_when_overdue() {
    assert_eq!(minutes_between(at(0), at(300)), -5);
    assert_eq!(minutes_between(at(0), at(59)), 0);
    assert_eq!(minutes_between(at(0), at(60)), -1);
    assert_eq!(minutes_between(at(0), at(119)), -1);
    assert_eq!(minutes_between(at(0), at(120)), -2);
}

#[test]
fn minutes_between_takes_nanoseconds_into_account() {
    let due = Timestamp { secs: 60, nanos: 0 };
    let just_after_start = Timestamp { secs: 0, nanos: 1 };
    assert_eq!(minutes_between(due, just_after_start), 0);
    let due_late = Timestamp { secs: 60, nanos: 1 };
    assert_eq!(minutes_between(due_late, just_after_start), 1);
    let now = Timestamp { secs: 60, nanos: 999_999_999 };
    assert_eq!(minutes_between(at(0), now), -1);
    assert_eq!(minutes_between(at(1), now), 0);
}

#[test]
fn minutes_between_at_the_ends_of_the_range() {
    let first = Timestamp { secs: i64::MIN, nanos: 0 };
    let last = Timestamp { secs: i64::MAX, nanos: u32::MAX };
    assert_eq!(minutes_between(last, first), 307_445_734_561_825_860);
    assert_eq!(minutes_between(first, last), -307_445_734_561_825_860);
}

#[test]
fn parse_due_date_reads_date_and_time() {
    assert_eq!(parse_due_date("2025-01-01 10:00"), Some(civil(2025, 1, 1, 10, 0)));
    assert_eq!(parse_due_date("2023-12-31 23:59"), Some(civil(2023, 12, 31, 23, 59)));
    assert_eq!(parse_due_date("2024-02-29 00:00"), Some(civil(2024, 2, 29, 0, 0)));
}

#[test]
fn parse_due_date_reads_a_bare_date_as_midnight() {
    assert_eq!(parse_due_date("2025-01-01"), Some(civil(2025, 1, 1, 0, 0)));
    assert_eq!(parse_due_date("2023-12-31"), Some(civil(2023, 12, 31, 0, 0)));
}

#[test]
fn parse_due_date_takes_the_first_word_where_the_whole_fails() {
    assert_eq!(parse_due_date("2025-01-01 noon"), Some(civil(2025, 1, 1, 0, 0)));
    assert_eq!(parse_due_date("2025-01-01 10:00:30"), Some(civil(2025, 1, 1, 0, 0)));
    assert_eq!(parse_due_date("  2025-03-04 whenever"), Some(civil(2025, 3, 4, 0, 0)));
    assert_eq!(parse_due_date("2025-03-04\tx"), Some(civil(2025, 3, 4, 0, 0)));
}

#[test]
fn parse_due_date_rejects_what_is_no_date() {
    assert_eq!(parse_due_date(""), None);
    assert_eq!(parse_due_date("   "), None);
    assert_eq!(parse_due_date("tomorrow"), None);
    assert_eq!(parse_due_date("2025-13-01"), None);
    assert_eq!(parse_due_date("2025-02-30"), None);
    assert_eq!(parse_due_date("2025-02-30 10:00"), None);
    assert_eq!(parse_due_date("2025/01/01"), None);
    assert_eq!(parse_due_date("10:00"), None);
}

#[test]
fn parse_due_date_rejects_a_time_out_of_range_but_keeps_the_day() {
    assert_eq!(parse_due_date("2025-01-01 24:00"), Some(civil(2025, 1, 1, 0, 0)));
    assert_eq!(parse_due_date("2025-01-01 10:60"), Some(civil(2025, 1, 1, 0, 0)));
}

#[test]
fn midnight_of_a_day() {
    let day = CivilDate { year: 2025, month: 6, day: 7 };
    assert_eq!(day.at_midnight(), civil(2025, 6, 7, 0, 0));
}

#[test]
fn leading_word_is_the_first_run_without_whitespace() {
    assert_eq!(leading_word("2025-01-01 10:00"), "2025-01-01");
    assert_eq!(leading_word("  a b"), "a");
    assert_eq!(leading_word("one"), "one");
    assert_eq!(leading_word("one\ttwo"), "one");
    assert_eq!(leading_word("\u{3000}wide space"), "wide");
    assert_eq!(leading_word("trailing   "), "trailing");
}

#[test]
fn leading_word_of_a_text_without_words_is_the_text() {
    assert_eq!(leading_word(""), "");
    assert_eq!(leading_word("   "), "   ");
    assert_eq!(leading_word("\n\t"), "\n\t");
}

#[test]
fn minutes_until_reports_a_missing_local_time() {
    assert_eq!(minutes_until(None, at(0)), Err(DueDateError::NoLocalTime));
    assert_eq!(minutes_until(Some(at(1800)), at(0)), Ok(30));
    assert_eq!(minutes_until(Some(at(0)), at(1800)), Ok(-30));
}

#[test]
fn minutes_until_due_rejects_what_is_no_date() {
    assert_eq!(minutes_until_due("not a date", at(0)), Err(DueDateError::Unparseable));
    assert_eq!(minutes_until_due("", at(0)), Err(DueDateError::Unparseable));
}

#[test]
fn minutes_until_due_scenario_fifteen_minutes_ahead_and_five_behind() {
    let due = instant_of("2025-01-01 10:00");
    let quarter_to = instant_of("2025-01-01 09:45");
    let five_past = instant_of("2025-01-01 10:05");
    assert_eq!(due - quarter_to, 900);

    let ahead = minutes_until_due("2025-01-01 10:00", at(quarter_to)).unwrap();
    assert_eq!(ahead, 15);
    assert!(should_notify(ahead, 30));

    let behind = minutes_until_due("2025-01-01 10:00", at(five_past)).unwrap();
    assert_eq!(behind, -5);
    assert!(!should_notify(behind, 30));
}

#[test]
fn minutes_until_due_of_a_bare_date_counts_to_local_midnight() {
    let midnight = instant_of("2025-01-02 00:00");
    assert_eq!(instant_of("2025-01-02"), midnight);
    assert_eq!(minutes_until_due("2025-01-02", at(midnight - 3600)), Ok(60));
    assert_eq!(minutes_until_due("2025-01-02 garbage", at(midnight - 3600)), Ok(60));
    assert_eq!(minutes_until_due("2025-01-02", at(midnight)), Ok(0));
    assert_eq!(minutes_until_due("2025-01-02", at(midnight + 61)), Ok(-1));
}

#[test]
fn minutes_until_due_a_day_apart() {
    let first = instant_of("2025-01-01 12:00");
    assert_eq!(minutes_until_due("2025-01-02 12:00", at(first)), Ok(1440));
}

#[test]
fn calculate_minutes_until_due_reads_the_clock() {
    assert_eq!(calculate_minutes_until_due("not a date"), None);
    let long_ago = calculate_minutes_until_due("2000-01-01 00:00").unwrap();
    assert!(long_ago < -10_000_000);
    let far_ahead = calculate_minutes_until_due("9000-01-01").unwrap();
    assert!(far_ahead > 1_000_000_000);
}

#[test]
fn effective_threshold_prefers_the_task() {
    let mut settings = MailSettings::default();
    settings.notification_minutes = 1440;
    assert_eq!(effective_threshold(&task("2025-01-01", Some(30)), &settings), 30);
    assert_eq!(effective_threshold(&task("2025-01-01", None), &settings), 1440);
    assert_eq!(effective_threshold(&task("2025-01-01", Some(0)), &settings), 0);
}

#[test]
fn decide_reminder_passes_over_completed_and_latched_tasks() {
    let mut done = task("2025-01-01 10:00", Some(30));
    done.completed = true;
    assert_eq!(decide_reminder(&done, Ok(15), 1440), ReminderDecision::Completed);

    let mut latched = task("2025-01-01 10:00", Some(30));
    latched.notified = true;
    assert_eq!(decide_reminder(&latched, Ok(15), 1440), ReminderDecision::AlreadyNotified);

    let mut both = task("2025-01-01 10:00", Some(30));
    both.completed = true;
    both.notified = true;
    assert_eq!(decide_reminder(&both, Ok(15), 1440), ReminderDecision::Completed);
}

#[test]
fn decide_reminder_holds_the_reading_against_the_threshold() {
    let own = task("2025-01-01 10:00", Some(30));
    assert_eq!(
        decide_reminder(&own, Ok(15), 1440),
        ReminderDecision::Evaluated { minutes: 15, threshold: 30, notify: true }
    );
    assert_eq!(
        decide_reminder(&own, Ok(31), 1440),
        ReminderDecision::Evaluated { minutes: 31, threshold: 30, notify: false }
    );
    assert_eq!(
        decide_reminder(&own, Ok(-5), 1440),
        ReminderDecision::Evaluated { minutes: -5, threshold: 30, notify: false }
    );
    let global = task("2025-01-01 10:00", None);
    assert_eq!(
        decide_reminder(&global, Ok(31), 1440),
        ReminderDecision::Evaluated { minutes: 31, threshold: 1440, notify: true }
    );
}

#[test]
fn decide_reminder_reports_a_date_that_cannot_be_read() {
    let bad = task("soon", None);
    assert_eq!(
        decide_reminder(&bad, Err(DueDateError::Unparseable), 1440),
        ReminderDecision::DateError(DueDateError::Unparseable)
    );
    assert_eq!(
        decide_reminder(&bad, Err(DueDateError::NoLocalTime), 1440),
        ReminderDecision::DateError(DueDateError::NoLocalTime)
    );
}
