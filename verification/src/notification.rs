//! The reminder rule: how far off a due date is, and whether a reminder for
//! it fires now.

use crate::clock::{
    civil_date_from_text, civil_date_time_from_text, current_time, local_instant, midnight,
    minutes_between, parse_civil_date, parse_civil_date_time, whole_minutes_between, CivilDateTime,
    Timestamp,
};
use crate::settings::MailSettings;
use crate::task::{Task, TaskView};
use crate::text::{first_word, leading_word};
use vstd::prelude::*;

verus! {

/// Why a due date gives no number of minutes.
#[derive(Clone, Copy, Debug, PartialEq, Eq, Structural)]
pub enum DueDateError {
    /// The text is neither a date with a time of day nor starts with a date.
    Unparseable,
    /// The text names a calendar time that clocks in this machine's time
    /// zone skip, or show twice.
    NoLocalTime,
}

/// The calendar time that a due date names. A text of the form
/// `YYYY-MM-DD HH:MM` names that time; any other text names the midnight
/// that starts the day its first word gives, where that word is a date of
/// the form `YYYY-MM-DD`.
pub open spec fn due_date_civil(text: Seq<char>) -> Option<CivilDateTime> {
    match civil_date_time_from_text(text, "%Y-%m-%d %H:%M"@) {
        Some(time) => Some(time),
        None => match civil_date_from_text(first_word(text), "%Y-%m-%d"@) {
            Some(day) => Some(midnight(day)),
            None => None,
        },
    }
}

/// The calendar time that `due_date` names, if it names one.
pub fn parse_due_date(due_date: &str) -> (civil: Option<CivilDateTime>)
    ensures
        civil == due_date_civil(due_date@),
{
    match parse_civil_date_time(due_date, "%Y-%m-%d %H:%M") {
        Some(time) => Some(time),
        None => match parse_civil_date(leading_word(due_date), "%Y-%m-%d") {
            Some(day) => Some(day.at_midnight()),
            None => None,
        },
    }
}

/// The minutes from `now` until a due time, given the instant that the local
/// time zone assigns to it, if it assigns one.
pub open spec fn minutes_until_instant(instant: Option<Timestamp>, now: Timestamp) -> Result<
    i64,
    DueDateError,
> {
    match instant {
        Some(due) => Ok(whole_minutes_between(due, now) as i64),
        None => Err(DueDateError::NoLocalTime),
    }
}

/// The minutes from `now` until a due time whose instant has been looked up.
pub fn minutes_until(instant: Option<Timestamp>, now: Timestamp) -> (reading: Result<
    i64,
    DueDateError,
>)
    ensures
        reading == minutes_until_instant(instant, now),
{
    match instant {
        Some(due) => Ok(minutes_between(due, now)),
        None => Err(DueDateError::NoLocalTime),
    }
}

/// The whole minutes from `now` until `due_date`, read as a time in this
/// machine's time zone; negative once it has passed. Which instant the zone
/// assigns to a calendar time is looked up, not computed here: of a date
/// that can be read the contract says that the outcome is what
/// [`minutes_until`] returns for some answer of that lookup.
pub fn minutes_until_due(due_date: &str, now: Timestamp) -> (reading: Result<i64, DueDateError>)
    ensures
        reading == Err::<i64, DueDateError>(DueDateError::Unparseable) <==> due_date_civil(
            due_date@,
        ) is None,
        due_date_civil(due_date@) is Some ==> exists|instant: Option<Timestamp>|
            reading == #[trigger] minutes_until_instant(instant, now),
{
    match parse_due_date(due_date) {
        Some(civil) => {
            let instant = local_instant(&civil);
            let reading = minutes_until(instant, now);
            assert(reading == minutes_until_instant(instant, now));
            reading
        },
        None => Err(DueDateError::Unparseable),
    }
}

/// What is made of the due date `text` when the clock shows `now` and the
/// local time zone assigns `instant` to the calendar time that the text
/// names: the whole minutes from `now` until that instant, rounded toward
/// zero. There is no number where the text names no calendar time, nor where
/// the zone assigns it no single instant.
pub open spec fn minutes_from_answers(
    text: Seq<char>,
    instant: Option<Timestamp>,
    now: Timestamp,
) -> Option<i64> {
    if due_date_civil(text) is None {
        None
    } else {
        match minutes_until_instant(instant, now) {
            Ok(minutes) => Some(minutes),
            Err(_) => None,
        }
    }
}

/// The whole minutes from the current time until `due_date`, or `None`
/// where the date cannot be read or names no single local time. The clock
/// is read and the zone is asked here: whatever the two answer, the result
/// is what [`minutes_from_answers`] makes of the answers.
pub fn calculate_minutes_until_due(due_date: &str) -> (minutes: Option<i64>)
    ensures
        due_date_civil(due_date@) is None ==> minutes is None,
        exists|instant: Option<Timestamp>, now: Timestamp|
            minutes == #[trigger] minutes_from_answers(due_date@, instant, now),
{
    let now = current_time();
    let reading = minutes_until_due(due_date, now);
    proof {
        if due_date_civil(due_date@) is None {
            assert(minutes_from_answers(due_date@, None, now) is None);
        } else {
            let instant = choose|instant: Option<Timestamp>|
                reading == #[trigger] minutes_until_instant(instant, now);
            assert(minutes_from_answers(due_date@, instant, now) == match reading {
                Ok(minutes) => Some(minutes),
                Err(_) => None::<i64>,
            });
        }
    }
    match reading {
        Ok(minutes) => Some(minutes),
        Err(_) => None,
    }
}

/// A reminder fires from `threshold` minutes before the due time up to the
/// due time itself, both ends included, and never after it.
pub open spec fn in_reminder_window(minutes_until_due: int, threshold: int) -> bool {
    0 <= minutes_until_due <= threshold
}

/// Whether a reminder fires for an item that is due in `minutes_until_due`
/// minutes, under a threshold of `threshold_minutes`.
pub fn should_notify(minutes_until_due: i64, threshold_minutes: i32) -> (fire: bool)
    ensures
        fire == in_reminder_window(minutes_until_due as int, threshold_minutes as int),
{
    0 <= minutes_until_due && minutes_until_due <= threshold_minutes as i64
}

/// The threshold that holds for `task`: its own, else the global one.
pub open spec fn threshold_of(task: TaskView, global_threshold: i32) -> i32 {
    match task.notification_minutes {
        Some(minutes) => minutes,
        None => global_threshold,
    }
}

/// The threshold that holds for `task`: its own, else that of the settings.
pub fn effective_threshold(task: &Task, settings: &MailSettings) -> (threshold: i32)
    ensures
        threshold == threshold_of(task@, settings@.notification_minutes),
{
    match task.notification_minutes {
        Some(minutes) => minutes,
        None => settings.notification_minutes,
    }
}

/// What a scan makes of one task.
#[derive(Clone, Copy, Debug, PartialEq, Eq, Structural)]
pub enum ReminderDecision {
    /// Completed tasks are passed over.
    Completed,
    /// So are tasks for which a reminder has fired already.
    AlreadyNotified,
    /// The due date gave no number of minutes.
    DateError(DueDateError),
    /// The due date was read and held against the threshold.
    Evaluated { minutes: i64, threshold: i32, notify: bool },
}

/// What a scan makes of `task`, given what its due date was read as.
pub open spec fn decision_for(
    task: TaskView,
    reading: Result<i64, DueDateError>,
    global_threshold: i32,
) -> ReminderDecision {
    if task.completed {
        ReminderDecision::Completed
    } else if task.notified {
        ReminderDecision::AlreadyNotified
    } else {
        match reading {
            Err(error) => ReminderDecision::DateError(error),
            Ok(minutes) => ReminderDecision::Evaluated {
                minutes,
                threshold: threshold_of(task, global_threshold),
                notify: in_reminder_window(
                    minutes as int,
                    threshold_of(task, global_threshold) as int,
                ),
            },
        }
    }
}

/// Whether a scan fires a reminder for `task`.
pub open spec fn fires(
    task: TaskView,
    reading: Result<i64, DueDateError>,
    global_threshold: i32,
) -> bool {
    decision_for(task, reading, global_threshold) matches ReminderDecision::Evaluated {
        notify: true,
        ..
    }
}

/// What a scan makes of `task`, given what its due date was read as.
pub fn decide_reminder(task: &Task, reading: Result<i64, DueDateError>, global_threshold: i32) -> (decision:
    ReminderDecision)
    ensures
        decision == decision_for(task@, reading, global_threshold),
{
    if task.completed {
        ReminderDecision::Completed
    } else if task.notified {
        ReminderDecision::AlreadyNotified
    } else {
        match reading {
            Err(error) => ReminderDecision::DateError(error),
            Ok(minutes) => {
                let threshold = match task.notification_minutes {
                    Some(own) => own,
                    None => global_threshold,
                };
                ReminderDecision::Evaluated {
                    minutes,
                    threshold,
                    notify: should_notify(minutes, threshold),
                }
            },
        }
    }
}

/// A reminder fires exactly from the threshold down to the due time: for
/// every number of minutes and every threshold, the window holds the number
/// if and only if it lies between zero and the threshold, both included. A
/// due time that has passed is never in it, however long ago it passed and
/// whatever the threshold.
pub proof fn lemma_reminder_window(minutes_until_due: int, threshold: int)
    ensures
        in_reminder_window(minutes_until_due, threshold) <==> 0 <= minutes_until_due
            <= threshold,
        minutes_until_due < 0 ==> !in_reminder_window(minutes_until_due, threshold),
        minutes_until_due == 0 && threshold >= 0 ==> in_reminder_window(minutes_until_due, threshold),
        minutes_until_due == threshold && threshold >= 0 ==> in_reminder_window(
            minutes_until_due,
            threshold,
        ),
{
}

/// A scan fires a reminder for a task exactly if the task is open, not yet
/// latched, has a due date that was read, and is inside the window of the
/// threshold that holds for it.
pub proof fn lemma_fires(task: TaskView, reading: Result<i64, DueDateError>, global_threshold: i32)
    ensures
        fires(task, reading, global_threshold) <==> {
            &&& !task.completed
            &&& !task.notified
            &&& reading is Ok
            &&& 0 <= reading->Ok_0 <= threshold_of(task, global_threshold)
        },
{
}

} // verus!
