//! The diagnostic trace of a reminder check: what was decided for each task
//! and why, for a person to read.

use crate::clock::{local_time_text, Timestamp};
use crate::mail::ConfigurationError;
use crate::notification::{decision_for, DueDateError, ReminderDecision};
use crate::scheduler::{
    decide_reminders, due_now, mark_due_tasks, read_due_dates, readings_of, scanned,
};
use crate::settings::is_configured;
use crate::state::{AppState, AppStateView};
use crate::task::{Task, TaskView};
use crate::text::{decimal_text, render_count, render_integer, render_truth, truth_text};
use vstd::prelude::*;
use vstd::string::StringExecFns;

verus! {

/// The line of the trace that says what was decided for `task`.
pub open spec fn decision_line(task: TaskView, decision: ReminderDecision) -> Seq<char> {
    let name = "Task '"@ + task.description;
    match decision {
        ReminderDecision::Completed => name + "': SKIPPED (completed)"@,
        ReminderDecision::AlreadyNotified => name + "': SKIPPED (already notified)"@,
        ReminderDecision::DateError(DueDateError::Unparseable) => name + "': ERROR parsing date '"@
            + task.due_date + "': invalid format"@,
        ReminderDecision::DateError(DueDateError::NoLocalTime) => name + "': ERROR parsing date '"@
            + task.due_date + "': no such local time"@,
        ReminderDecision::Evaluated { minutes, threshold, notify } => name + "': due_date="@
            + task.due_date + ", minutes_until_due="@ + decimal_text(minutes as int)
            + ", threshold="@ + decimal_text(threshold as int) + ", will_notify="@ + truth_text(
            notify,
        ),
    }
}

/// Writes the line of the trace that says what was decided for `task`.
pub fn describe_decision(task: &Task, decision: ReminderDecision) -> (line: String)
    ensures
        line@ == decision_line(task@, decision),
{
    let mut line = "Task '".to_owned();
    line.append(task.description.as_str());
    match decision {
        ReminderDecision::Completed => {
            line.append("': SKIPPED (completed)");
        },
        ReminderDecision::AlreadyNotified => {
            line.append("': SKIPPED (already notified)");
        },
        ReminderDecision::DateError(DueDateError::Unparseable) => {
            line.append("': ERROR parsing date '");
            line.append(task.due_date.as_str());
            line.append("': invalid format");
        },
        ReminderDecision::DateError(DueDateError::NoLocalTime) => {
            line.append("': ERROR parsing date '");
            line.append(task.due_date.as_str());
            line.append("': no such local time");
        },
        ReminderDecision::Evaluated { minutes, threshold, notify } => {
            line.append("': due_date=");
            line.append(task.due_date.as_str());
            line.append(", minutes_until_due=");
            line.append(render_integer(minutes).as_str());
            line.append(", threshold=");
            line.append(render_integer(threshold as i64).as_str());
            line.append(", will_notify=");
            line.append(render_truth(notify));
        },
    }
    line
}

/// The line that gives the threshold of the settings.
pub open spec fn threshold_line(minutes: i32) -> Seq<char> {
    "Global notification threshold: "@ + decimal_text(minutes as int) + " minutes"@
}

/// The line that gives the number of tasks.
pub open spec fn total_line(count: nat) -> Seq<char> {
    "Total tasks: "@ + decimal_text(count as int)
}

/// The lines that say what was decided for each of the first `count` tasks.
pub open spec fn decision_lines(
    tasks: Seq<TaskView>,
    readings: Seq<Result<i64, DueDateError>>,
    global_threshold: i32,
    count: nat,
) -> Seq<Seq<char>>
    recommends
        count <= tasks.len() == readings.len(),
    decreases count,
{
    if count == 0 {
        Seq::empty()
    } else {
        decision_lines(tasks, readings, global_threshold, (count - 1) as nat).push(
            decision_line(
                tasks[count - 1],
                decision_for(tasks[count - 1], readings[count - 1], global_threshold),
            ),
        )
    }
}

/// The trace of a scan, after the line that gives the time: the threshold,
/// the number of tasks, one line for each task, and a last line where a
/// reminder fires for some task.
pub open spec fn scan_lines(state: AppStateView, readings: Seq<Result<i64, DueDateError>>) -> Seq<
    Seq<char>,
>
    recommends
        readings.len() == state.tasks.len(),
{
    let global = state.mail_settings.notification_minutes;
    let head = seq![threshold_line(global), total_line(state.tasks.len())];
    let body = decision_lines(state.tasks, readings, global, state.tasks.len());
    if due_now(state.tasks, readings, global).len() > 0 {
        (head + body).push("Tasks updated"@)
    } else {
        head + body
    }
}

/// What a reminder check found.
#[derive(Debug)]
pub struct NotificationCheck {
    /// The tasks for which a reminder is to be sent, as they stood before
    /// they were latched. Where there is one, the tasks are to be stored.
    pub pending: Vec<Task>,
    /// The trace so far, line by line.
    pub lines: Vec<String>,
}

/// A reminder check at `now`, with its trace. Without a mail account it is
/// refused and nothing changes. Else the tasks are scanned as in a tick of
/// the reminder timer. What a due date is read as depends on the machine's
/// time zone, and so does the text of the time in the first line: the
/// contract holds for whatever came back.
pub fn check_notifications(state: &mut AppState, now: Timestamp) -> (outcome: Result<
    NotificationCheck,
    ConfigurationError,
>)
    ensures
        outcome is Ok == is_configured(old(state)@.mail_settings),
        outcome is Err ==> final(state)@ == old(state)@,
        old(state)@.ids_are_fresh() ==> final(state)@.ids_are_fresh(),
        outcome matches Ok(check) ==> exists|readings: Seq<Result<i64, DueDateError>>|
            {
                &&& readings_of(old(state)@.tasks, readings)
                &&& final(state)@ == scanned(old(state)@, readings)
                &&& check.pending.deep_view() == due_now(
                    old(state)@.tasks,
                    readings,
                    old(state)@.mail_settings.notification_minutes,
                )
                &&& check.lines.len() > 0
                &&& "Current time: "@.is_prefix_of(check.lines.deep_view()[0])
                &&& check.lines.deep_view().drop_first() == scan_lines(old(state)@, readings)
            },
{
    if !state.mail_settings.is_configured() {
        return Err(ConfigurationError::NotConfigured);
    }
    let global = state.mail_settings.notification_minutes;
    let mut lines: Vec<String> = Vec::new();
    let mut clock = "Current time: ".to_owned();
    if let Some(text) = local_time_text(&now, "%Y-%m-%d %H:%M:%S") {
        clock.append(text.as_str());
    }
    lines.push(clock);
    let mut threshold = "Global notification threshold: ".to_owned();
    threshold.append(render_integer(global as i64).as_str());
    threshold.append(" minutes");
    lines.push(threshold);
    let mut total = "Total tasks: ".to_owned();
    total.append(render_count(state.tasks.len()).as_str());
    lines.push(total);
    let readings = read_due_dates(&state.tasks, now);
    let decisions = decide_reminders(&state.tasks, &readings, global);
    let ghost tasks = state@.tasks;
    let ghost head = seq![threshold_line(global), total_line(tasks.len())];
    assert(lines.deep_view().drop_first() =~= head + decision_lines(tasks, readings@, global, 0));
    let mut i: usize = 0;
    while i < state.tasks.len()
        invariant
            i <= state.tasks.len(),
            tasks == state@.tasks,
            state@ == old(state)@,
            readings.len() == tasks.len(),
            decisions.len() == tasks.len(),
            forall|k: int|
                0 <= k < tasks.len() ==> decisions[k] == decision_for(
                    tasks[k],
                    readings[k],
                    global,
                ),
            lines.len() == 3 + i,
            "Current time: "@.is_prefix_of(lines.deep_view()[0]),
            lines.deep_view().drop_first() == head + decision_lines(
                tasks,
                readings@,
                global,
                i as nat,
            ),
        decreases state.tasks.len() - i,
    {
        let ghost held = lines.deep_view();
        let line = describe_decision(&state.tasks[i], decisions[i]);
        lines.push(line);
        assert(lines.deep_view() =~= held.push(line@));
        assert(lines.deep_view().drop_first() =~= held.drop_first().push(line@));
        assert(held.drop_first().push(line@) =~= head + decision_lines(
            tasks,
            readings@,
            global,
            (i + 1) as nat,
        ));
        i += 1;
    }
    let pending = mark_due_tasks(&mut state.tasks, &readings, global);
    if pending.len() > 0 {
        let ghost held = lines.deep_view();
        lines.push("Tasks updated".to_owned());
        assert(lines.deep_view() =~= held.push("Tasks updated"@));
        assert(lines.deep_view().drop_first() =~= held.drop_first().push("Tasks updated"@));
    }
    assert(state@ == scanned(old(state)@, readings@));
    assert(lines.deep_view().drop_first() == scan_lines(old(state)@, readings@));
    Ok(NotificationCheck { pending, lines })
}

/// The line that says how sending the reminder for a task went.
pub open spec fn delivery_line(description: Seq<char>, outcome: Result<(), Seq<char>>) -> Seq<char> {
    match outcome {
        Ok(_) => "\u{2713} Email sent for task '"@ + description + "'"@,
        Err(reason) => "\u{2717} Failed to send email for task '"@ + description + "': "@ + reason,
    }
}

/// Writes the line that says how sending the reminder for `task` went;
/// `failure` is the transport's complaint, if it made one.
pub fn describe_delivery(task: &Task, failure: Option<&str>) -> (line: String)
    ensures
        line@ == delivery_line(
            task@.description,
            match failure {
                Some(reason) => Err(reason@),
                None => Ok(()),
            },
        ),
{
    match failure {
        None => {
            let mut line = "\u{2713} Email sent for task '".to_owned();
            line.append(task.description.as_str());
            line.append("'");
            line
        },
        Some(reason) => {
            let mut line = "\u{2717} Failed to send email for task '".to_owned();
            line.append(task.description.as_str());
            line.append("': ");
            line.append(reason);
            line
        },
    }
}

/// The first `count` lines, each but the first after a line break.
pub open spec fn joined(lines: Seq<Seq<char>>, count: nat) -> Seq<char>
    recommends
        count <= lines.len(),
    decreases count,
{
    if count == 0 {
        Seq::empty()
    } else if count == 1 {
        lines[0]
    } else {
        joined(lines, (count - 1) as nat) + "\n"@ + lines[count - 1]
    }
}

/// The report of a reminder check: how many reminders were attempted, then
/// the trace.
pub open spec fn report_text(attempted: nat, lines: Seq<Seq<char>>) -> Seq<char> {
    "Notification check complete.\n\nSent "@ + decimal_text(attempted as int)
        + " email(s).\n\n--- Debug Info ---\n"@ + joined(lines, lines.len())
}

/// Writes the report of a reminder check.
pub fn notification_report(attempted: usize, lines: &Vec<String>) -> (report: String)
    ensures
        report@ == report_text(attempted as nat, lines.deep_view()),
{
    let mut report = "Notification check complete.\n\nSent ".to_owned();
    report.append(render_count(attempted).as_str());
    report.append(" email(s).\n\n--- Debug Info ---\n");
    let ghost head = report@;
    let ghost all = lines.deep_view();
    let mut i: usize = 0;
    assert(report@ =~= head + joined(all, 0));
    while i < lines.len()
        invariant
            i <= lines.len(),
            all == lines.deep_view(),
            report@ == head + joined(all, i as nat),
        decreases lines.len() - i,
    {
        if i > 0 {
            report.append("\n");
        }
        report.append(lines[i].as_str());
        assert(report@ =~= head + joined(all, (i + 1) as nat));
        i += 1;
    }
    report
}

} // verus!
