//! The reminder scan: which tasks are due for a reminder, and the latch that
//! keeps a reminder from firing twice.

use crate::clock::Timestamp;
use crate::notification::{
    decide_reminder, decision_for, due_date_civil, fires, minutes_until_due, DueDateError,
    ReminderDecision,
};
use crate::settings::is_configured;
use crate::state::{AppState, AppStateView};
use crate::task::{Task, TaskView};
use vstd::prelude::*;

verus! {

/// `task` once a reminder has fired for it.
pub open spec fn latched(task: TaskView) -> TaskView {
    TaskView { notified: true, ..task }
}

/// Whether a scan fires a reminder for the task at `index`, where
/// `readings[i]` is what the due date of `tasks[i]` was read as. A task
/// without a reading is passed over.
pub open spec fn fires_at(
    tasks: Seq<TaskView>,
    readings: Seq<Result<i64, DueDateError>>,
    global_threshold: i32,
    index: int,
) -> bool {
    &&& 0 <= index < tasks.len()
    &&& index < readings.len()
    &&& fires(tasks[index], readings[index], global_threshold)
}

/// The tasks after a scan: those for which a reminder fires are latched, all
/// others are as they were.
pub open spec fn marked(
    tasks: Seq<TaskView>,
    readings: Seq<Result<i64, DueDateError>>,
    global_threshold: i32,
) -> Seq<TaskView> {
    Seq::new(
        tasks.len(),
        |i: int|
            if fires_at(tasks, readings, global_threshold, i) {
                latched(tasks[i])
            } else {
                tasks[i]
            },
    )
}

/// Those of the first `count` tasks for which a reminder fires, in order and
/// as they stood before the scan.
pub open spec fn due_among(
    tasks: Seq<TaskView>,
    readings: Seq<Result<i64, DueDateError>>,
    global_threshold: i32,
    count: nat,
) -> Seq<TaskView>
    recommends
        count <= tasks.len(),
    decreases count,
{
    if count == 0 {
        Seq::empty()
    } else {
        let before = due_among(tasks, readings, global_threshold, (count - 1) as nat);
        if fires_at(tasks, readings, global_threshold, count - 1) {
            before.push(tasks[count - 1])
        } else {
            before
        }
    }
}

/// The tasks for which a scan fires a reminder, in order and as they stood
/// before the scan.
pub open spec fn due_now(
    tasks: Seq<TaskView>,
    readings: Seq<Result<i64, DueDateError>>,
    global_threshold: i32,
) -> Seq<TaskView> {
    due_among(tasks, readings, global_threshold, tasks.len())
}

/// `readings` holds one reading for each task, and reports a due date as
/// unparseable exactly where it is.
pub open spec fn readings_of(tasks: Seq<TaskView>, readings: Seq<Result<i64, DueDateError>>) -> bool {
    &&& readings.len() == tasks.len()
    &&& forall|i: int|
        0 <= i < tasks.len() ==> (#[trigger] readings[i] == Err::<i64, DueDateError>(
            DueDateError::Unparseable,
        ) <==> due_date_civil(tasks[i].due_date) is None)
}

/// Reads the due date of every task against `now`.
pub fn read_due_dates(tasks: &Vec<Task>, now: Timestamp) -> (readings: Vec<
    Result<i64, DueDateError>,
>)
    ensures
        readings_of(tasks.deep_view(), readings@),
{
    let mut readings: Vec<Result<i64, DueDateError>> = Vec::new();
    let mut i: usize = 0;
    while i < tasks.len()
        invariant
            i <= tasks.len(),
            readings.len() == i,
            forall|k: int|
                0 <= k < i ==> (#[trigger] readings[k] == Err::<i64, DueDateError>(
                    DueDateError::Unparseable,
                ) <==> due_date_civil(tasks[k].due_date@) is None),
        decreases tasks.len() - i,
    {
        readings.push(minutes_until_due(tasks[i].due_date.as_str(), now));
        i += 1;
    }
    readings
}

/// What a scan makes of each task, in order.
pub(crate) fn decide_reminders(
    tasks: &Vec<Task>,
    readings: &Vec<Result<i64, DueDateError>>,
    global_threshold: i32,
) -> (decisions: Vec<ReminderDecision>)
    requires
        readings.len() == tasks.len(),
    ensures
        decisions.len() == tasks.len(),
        forall|i: int|
            0 <= i < tasks.len() ==> decisions[i] == decision_for(
                tasks[i]@,
                readings[i],
                global_threshold,
            ),
{
    let mut decisions: Vec<ReminderDecision> = Vec::new();
    let mut i: usize = 0;
    while i < tasks.len()
        invariant
            i <= tasks.len(),
            readings.len() == tasks.len(),
            decisions.len() == i,
            forall|k: int|
                0 <= k < i ==> decisions[k] == decision_for(
                    tasks[k]@,
                    readings[k],
                    global_threshold,
                ),
        decreases tasks.len() - i,
    {
        decisions.push(decide_reminder(&tasks[i], readings[i], global_threshold));
        i += 1;
    }
    decisions
}

/// Latches every task for which a reminder fires and hands those tasks out,
/// as they stood before. `readings[i]` is what the due date of `tasks[i]`
/// was read as; a task without a reading is passed over.
pub fn mark_due_tasks(
    tasks: &mut Vec<Task>,
    readings: &Vec<Result<i64, DueDateError>>,
    global_threshold: i32,
) -> (pending: Vec<Task>)
    ensures
        final(tasks).deep_view() == marked(old(tasks).deep_view(), readings@, global_threshold),
        pending.deep_view() == due_now(old(tasks).deep_view(), readings@, global_threshold),
{
    let ghost before = tasks.deep_view();
    let mut pending: Vec<Task> = Vec::new();
    let mut i: usize = 0;
    assert(pending.deep_view() =~= Seq::<TaskView>::empty());
    while i < tasks.len()
        invariant
            i <= tasks.len(),
            tasks.len() == before.len(),
            forall|k: int|
                0 <= k < i ==> #[trigger] tasks[k]@ == marked(before, readings@, global_threshold)[k],
            forall|k: int| i <= k < tasks.len() ==> #[trigger] tasks[k]@ == before[k],
            pending.deep_view() == due_among(before, readings@, global_threshold, i as nat),
        decreases tasks.len() - i,
    {
        if i < readings.len() {
            let decision = decide_reminder(&tasks[i], readings[i], global_threshold);
            if let ReminderDecision::Evaluated { notify: true, .. } = decision {
                let ghost held = pending.deep_view();
                pending.push(tasks[i].clone());
                assert(pending.deep_view() =~= held.push(before[i as int]));
                tasks[i].notified = true;
            }
        }
        i += 1;
    }
    assert(tasks.deep_view() =~= marked(before, readings@, global_threshold));
    pending
}

/// How a tick of the reminder timer ended.
#[derive(Debug)]
pub enum TickOutcome {
    /// No mail account is set: nothing was scanned.
    Unconfigured,
    /// The tasks were scanned. A reminder is to be sent for each task in
    /// `pending`; where there is one, the tasks are to be stored.
    Scanned { pending: Vec<Task> },
}

/// The state after a scan in which the due dates were read as `readings`.
pub open spec fn scanned(state: AppStateView, readings: Seq<Result<i64, DueDateError>>) -> AppStateView {
    AppStateView {
        tasks: marked(state.tasks, readings, state.mail_settings.notification_minutes),
        ..state
    }
}

/// One tick of the reminder timer at `now`. Without a mail account nothing
/// happens. Else the due dates are read, and every task that is open and not
/// yet latched is latched and handed out where the reminder rule fires for
/// it. What a due date is read as depends on the machine's time zone: the
/// contract holds for whatever readings came back.
pub fn notification_tick(state: &mut AppState, now: Timestamp) -> (outcome: TickOutcome)
    ensures
        !is_configured(old(state)@.mail_settings) ==> outcome is Unconfigured && final(state)@
            == old(state)@,
        old(state)@.ids_are_fresh() ==> final(state)@.ids_are_fresh(),
        is_configured(old(state)@.mail_settings) ==> exists|
            readings: Seq<Result<i64, DueDateError>>,
        |
            {
                &&& readings_of(old(state)@.tasks, readings)
                &&& final(state)@ == scanned(old(state)@, readings)
                &&& outcome matches TickOutcome::Scanned { pending }
                &&& pending.deep_view() == due_now(
                    old(state)@.tasks,
                    readings,
                    old(state)@.mail_settings.notification_minutes,
                )
            },
{
    if !state.mail_settings.is_configured() {
        return TickOutcome::Unconfigured;
    }
    let readings = read_due_dates(&state.tasks, now);
    let pending = mark_due_tasks(
        &mut state.tasks,
        &readings,
        state.mail_settings.notification_minutes,
    );
    assert(readings_of(old(state)@.tasks, readings@));
    assert(state@ == scanned(old(state)@, readings@));
    TickOutcome::Scanned { pending }
}

/// A scan changes nothing but the latches, and sets a latch exactly where a
/// reminder fires.
pub proof fn lemma_marked(
    tasks: Seq<TaskView>,
    readings: Seq<Result<i64, DueDateError>>,
    global_threshold: i32,
)
    ensures
        marked(tasks, readings, global_threshold).len() == tasks.len(),
        forall|i: int|
            0 <= i < tasks.len() ==> #[trigger] marked(tasks, readings, global_threshold)[i] == (
            TaskView {
                notified: tasks[i].notified || fires_at(tasks, readings, global_threshold, i),
                ..tasks[i]
            }),
{
}

/// No more reminders are handed out than there are tasks, each goes to a
/// task that is open and was not latched, and none is handed out where the
/// rule fires for no task.
pub proof fn lemma_due_among(
    tasks: Seq<TaskView>,
    readings: Seq<Result<i64, DueDateError>>,
    global_threshold: i32,
    count: nat,
)
    requires
        count <= tasks.len(),
    ensures
        ({
            let due = due_among(tasks, readings, global_threshold, count);
            &&& due.len() <= count
            &&& forall|k: int|
                0 <= k < due.len() ==> !(#[trigger] due[k]).notified && !due[k].completed
            &&& (forall|i: int| 0 <= i < count ==> !fires_at(tasks, readings, global_threshold, i))
                ==> due == Seq::<TaskView>::empty()
        }),
    decreases count,
{
    if count > 0 {
        lemma_due_among(tasks, readings, global_threshold, (count - 1) as nat);
    }
}

/// The latch keeps a reminder from firing twice. Let a scan read the due
/// dates as `first`, and let a later scan, with no change to the tasks in
/// between, read them as `second`, under whatever thresholds. Then no task
/// for which the first scan fires a reminder gets one from the second. And
/// where the second scan reads what the first read, under the same
/// threshold, it fires no reminder at all and changes nothing.
pub proof fn lemma_reminder_fires_once(
    tasks: Seq<TaskView>,
    first: Seq<Result<i64, DueDateError>>,
    first_threshold: i32,
    second: Seq<Result<i64, DueDateError>>,
    second_threshold: i32,
)
    ensures
        forall|i: int|
            fires_at(tasks, first, first_threshold, i) ==> !#[trigger] fires_at(
                marked(tasks, first, first_threshold),
                second,
                second_threshold,
                i,
            ),
        due_now(marked(tasks, first, first_threshold), first, first_threshold) == Seq::<
            TaskView,
        >::empty(),
        marked(marked(tasks, first, first_threshold), first, first_threshold) == marked(
            tasks,
            first,
            first_threshold,
        ),
{
    let once = marked(tasks, first, first_threshold);
    lemma_due_among(once, first, first_threshold, once.len());
    assert(marked(once, first, first_threshold) =~= once);
}

} // verus!
