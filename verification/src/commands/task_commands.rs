//! Commands on tasks, their subtasks, the groups and the mail settings.

use crate::collection::{find_by_number, index_with_number, remove_by_number, without_number};
use crate::settings::MailSettings;
use crate::state::{AppState, AppStateView};
use crate::task::{next_subtask_id, Subtask, SubtaskView, Task, TaskView};
use crate::text::{char_is_whitespace, characters, is_whitespace};
use vstd::prelude::*;

verus! {

/// A copy of `tasks`.
pub fn snapshot_tasks(tasks: &Vec<Task>) -> (snapshot: Vec<Task>)
    ensures
        snapshot.deep_view() == tasks.deep_view(),
{
    let snapshot = tasks.clone();
    assert(snapshot.deep_view() =~= tasks.deep_view());
    snapshot
}

/// A copy of `texts`.
pub fn snapshot_texts(texts: &Vec<String>) -> (snapshot: Vec<String>)
    ensures
        snapshot.deep_view() == texts.deep_view(),
{
    let snapshot = texts.clone();
    assert(snapshot.deep_view() =~= texts.deep_view());
    snapshot
}

/// All tasks, in their order.
pub fn get_tasks(state: &AppState) -> (snapshot: Vec<Task>)
    ensures
        snapshot.deep_view() == state@.tasks,
{
    snapshot_tasks(&state.tasks)
}

/// The task that `add_task` makes: open, not yet notified, without subtasks.
pub open spec fn new_task(
    id: i32,
    description: Seq<char>,
    start_date: Option<Seq<char>>,
    due_date: Seq<char>,
    group: Seq<char>,
    details: Seq<char>,
    notification_minutes: Option<i32>,
    dependencies: Option<Seq<i32>>,
) -> TaskView {
    TaskView {
        id,
        description,
        start_date,
        due_date,
        group,
        details,
        completed: false,
        notified: false,
        notification_minutes,
        subtasks: Seq::empty(),
        dependencies,
    }
}

/// Appends a task under the next free id.
pub fn add_task(
    state: &mut AppState,
    description: String,
    start_date: Option<String>,
    due_date: String,
    group: String,
    details: String,
    notification_minutes: Option<i32>,
    dependencies: Option<Vec<i32>>,
) -> (snapshot: Vec<Task>)
    requires
        old(state).next_id < i32::MAX,
    ensures
        final(state)@ == (AppStateView {
            tasks: old(state)@.tasks.push(
                new_task(
                    old(state).next_id,
                    description@,
                    start_date.deep_view(),
                    due_date@,
                    group@,
                    details@,
                    notification_minutes,
                    dependencies.deep_view(),
                ),
            ),
            next_id: (old(state).next_id + 1) as i32,
            ..old(state)@
        }),
        old(state)@.ids_are_fresh() ==> final(state)@.ids_are_fresh(),
        snapshot.deep_view() == final(state)@.tasks,
{
    let task = Task {
        id: state.next_id,
        description,
        start_date,
        due_date,
        group,
        details,
        completed: false,
        notified: false,
        notification_minutes,
        subtasks: Vec::new(),
        dependencies,
    };
    assert(task@.subtasks =~= Seq::empty());
    state.next_id = state.next_id + 1;
    state.tasks.push(task);
    assert(state.tasks.deep_view() =~= old(state)@.tasks.push(task@));
    snapshot_tasks(&state.tasks)
}

/// `task` after an edit. The reminder latch is released where the due date
/// or the task's own threshold is not what it was, so that the reminder can
/// fire again; else it stays as it is.
pub open spec fn revised_task(
    task: TaskView,
    description: Seq<char>,
    start_date: Option<Seq<char>>,
    due_date: Seq<char>,
    group: Seq<char>,
    details: Seq<char>,
    notification_minutes: Option<i32>,
    dependencies: Option<Seq<i32>>,
) -> TaskView {
    TaskView {
        description,
        start_date,
        due_date,
        group,
        details,
        notification_minutes,
        dependencies,
        notified: task.notified && task.due_date == due_date && task.notification_minutes
            == notification_minutes,
        ..task
    }
}

/// `tasks` with the one at `index` replaced, or as they are without an
/// index.

/// Overwrites the first task with the id `id`. Where there is none, nothing
/// changes.
pub fn update_task(
    state: &mut AppState,
    id: i32,
    description: String,
    start_date: Option<String>,
    due_date: String,
    group: String,
    details: String,
    notification_minutes: Option<i32>,
    dependencies: Option<Vec<i32>>,
) -> (snapshot: Vec<Task>)
    ensures
        final(state)@ == (AppStateView {
            tasks: match index_with_number(old(state)@.tasks, id) {
                Some(i) => old(state)@.tasks.update(
                    i,
                    revised_task(
                        old(state)@.tasks[i],
                        description@,
                        start_date.deep_view(),
                        due_date@,
                        group@,
                        details@,
                        notification_minutes,
                        dependencies.deep_view(),
                    ),
                ),
                None => old(state)@.tasks,
            },
            ..old(state)@
        }),
        old(state)@.ids_are_fresh() ==> final(state)@.ids_are_fresh(),
        snapshot.deep_view() == final(state)@.tasks,
{
    if let Some(i) = find_by_number(&state.tasks, id) {
        let due_date_changed = state.tasks[i].due_date != due_date;
        let threshold_changed = state.tasks[i].notification_minutes != notification_minutes;
        state.tasks[i].description = description;
        state.tasks[i].start_date = start_date;
        state.tasks[i].due_date = due_date;
        state.tasks[i].group = group;
        state.tasks[i].details = details;
        state.tasks[i].notification_minutes = notification_minutes;
        state.tasks[i].dependencies = dependencies;
        if due_date_changed || threshold_changed {
            state.tasks[i].notified = false;
        }
        assert(state.tasks.deep_view() =~= old(state)@.tasks.update(
            i as int,
            revised_task(
                old(state)@.tasks[i as int],
                description@,
                start_date.deep_view(),
                due_date@,
                group@,
                details@,
                notification_minutes,
                dependencies.deep_view(),
            ),
        ));
    }
    snapshot_tasks(&state.tasks)
}

/// Removes every task with the id `id`.
pub fn delete_task(state: &mut AppState, id: i32) -> (snapshot: Vec<Task>)
    ensures
        final(state)@ == (AppStateView {
            tasks: without_number(old(state)@.tasks, id),
            ..old(state)@
        }),
        old(state)@.ids_are_fresh() ==> final(state)@.ids_are_fresh(),
        snapshot.deep_view() == final(state)@.tasks,
{
    remove_by_number(&mut state.tasks, id);
    proof {
        crate::collection::lemma_without_number(old(state)@.tasks, id);
    }
    snapshot_tasks(&state.tasks)
}

/// Turns the first task with the id `id` from open to completed, or back.
pub fn complete_task(state: &mut AppState, id: i32) -> (snapshot: Vec<Task>)
    ensures
        final(state)@ == (AppStateView {
            tasks: match index_with_number(old(state)@.tasks, id) {
                Some(i) => old(state)@.tasks.update(
                    i,
                    TaskView { completed: !old(state)@.tasks[i].completed, ..old(state)@.tasks[i] },
                ),
                None => old(state)@.tasks,
            },
            ..old(state)@
        }),
        old(state)@.ids_are_fresh() ==> final(state)@.ids_are_fresh(),
        snapshot.deep_view() == final(state)@.tasks,
{
    if let Some(i) = find_by_number(&state.tasks, id) {
        state.tasks[i].completed = !state.tasks[i].completed;
        assert(state.tasks.deep_view() =~= old(state)@.tasks.update(
            i as int,
            TaskView {
                completed: !old(state)@.tasks[i as int].completed,
                ..old(state)@.tasks[i as int]
            },
        ));
    }
    snapshot_tasks(&state.tasks)
}

/// All groups, in their order.
pub fn get_groups(state: &AppState) -> (snapshot: Vec<String>)
    ensures
        snapshot.deep_view() == state@.groups,
{
    snapshot_texts(&state.groups)
}

/// A text of nothing but whitespace, the empty text among them.
pub open spec fn is_blank(text: Seq<char>) -> bool {
    forall|i: int| 0 <= i < text.len() ==> is_whitespace(#[trigger] text[i])
}

/// Whether `text` holds nothing but whitespace.
pub fn blank(text: &str) -> (all_blank: bool)
    ensures
        all_blank == is_blank(text@),
{
    let chars = characters(text);
    let mut i: usize = 0;
    while i < chars.len()
        invariant
            i <= chars.len(),
            chars@ == text@,
            forall|k: int| 0 <= k < i ==> is_whitespace(#[trigger] text@[k]),
        decreases chars.len() - i,
    {
        if !char_is_whitespace(chars[i]) {
            return false;
        }
        i += 1;
    }
    true
}

/// Where `text` stands first in `texts`.
pub fn find_text(texts: &Vec<String>, text: &String) -> (found: Option<usize>)
    ensures
        found is None <==> texts.deep_view().index_of_first(text@) is None,
        found matches Some(i) ==> texts.deep_view().index_of_first(text@) == Some(i as int),
        found matches Some(i) ==> i < texts.len(),
        found is Some <==> texts.deep_view().contains(text@),
{
    let ghost all = texts.deep_view();
    let mut i: usize = 0;
    while i < texts.len()
        invariant
            i <= texts.len(),
            all == texts.deep_view(),
            forall|k: int| 0 <= k < i ==> all[k] != text@,
        decreases texts.len() - i,
    {
        if texts[i] == *text {
            proof {
                assert(all[i as int] == text@);
                all.index_of_first_ensures(text@);
            }
            return Some(i);
        }
        i += 1;
    }
    proof {
        all.index_of_first_ensures(text@);
    }
    None
}

/// Appends the group `name`, unless it is there already or is blank.
pub fn create_group(state: &mut AppState, name: String) -> (snapshot: Vec<String>)
    ensures
        final(state)@ == (AppStateView {
            groups: if old(state)@.groups.contains(name@) || is_blank(name@) {
                old(state)@.groups
            } else {
                old(state)@.groups.push(name@)
            },
            ..old(state)@
        }),
        snapshot.deep_view() == final(state)@.groups,
{
    if find_text(&state.groups, &name).is_none() && !blank(name.as_str()) {
        state.groups.push(name);
        assert(state.groups.deep_view() =~= old(state)@.groups.push(name@));
    }
    snapshot_texts(&state.groups)
}

/// `tasks` with the group of every task in the group `name` cleared.
pub open spec fn ungrouped(tasks: Seq<TaskView>, name: Seq<char>) -> Seq<TaskView> {
    Seq::new(
        tasks.len(),
        |i: int|
            if tasks[i].group == name {
                TaskView { group: Seq::empty(), ..tasks[i] }
            } else {
                tasks[i]
            },
    )
}

/// Removes the group `name` and takes its tasks out of it. Where there is no
/// such group, nothing changes.
pub fn delete_group(state: &mut AppState, name: String) -> (snapshot: Vec<String>)
    ensures
        final(state)@ == match old(state)@.groups.index_of_first(name@) {
            Some(i) => AppStateView {
                groups: old(state)@.groups.remove(i),
                tasks: ungrouped(old(state)@.tasks, name@),
                ..old(state)@
            },
            None => old(state)@,
        },
        old(state)@.ids_are_fresh() ==> final(state)@.ids_are_fresh(),
        snapshot.deep_view() == final(state)@.groups,
{
    if let Some(position) = find_text(&state.groups, &name) {
        state.groups.remove(position);
        assert(state.groups.deep_view() =~= old(state)@.groups.remove(position as int));
        let ghost before = state.tasks.deep_view();
        let mut i: usize = 0;
        while i < state.tasks.len()
            invariant
                i <= state.tasks.len(),
                state.tasks.len() == before.len(),
                forall|k: int|
                    0 <= k < i ==> #[trigger] state.tasks[k]@ == ungrouped(before, name@)[k],
                forall|k: int| i <= k < before.len() ==> #[trigger] state.tasks[k]@ == before[k],
                state.groups.deep_view() == old(state)@.groups.remove(position as int),
                state.next_id == old(state).next_id,
                state.mail_settings@ == old(state)@.mail_settings,
                state.memos.deep_view() == old(state)@.memos,
                state.folders.deep_view() == old(state)@.folders,
                state.reading_books.deep_view() == old(state)@.reading_books,
                state.calendar_events.deep_view() == old(state)@.calendar_events,
            decreases state.tasks.len() - i,
        {
            assert(state.tasks[i as int]@ == before[i as int]);
            if state.tasks[i].group == name {
                state.tasks[i].group = String::new();
            }
            i += 1;
        }
        assert(state.tasks.deep_view() =~= ungrouped(before, name@));
    }
    snapshot_texts(&state.groups)
}

/// The mail settings.
pub fn get_mail_settings(state: &AppState) -> (settings: MailSettings)
    ensures
        settings@ == state@.mail_settings,
{
    state.mail_settings.clone()
}

/// Puts `settings` in place of the mail settings.
pub fn save_mail_settings(state: &mut AppState, settings: MailSettings) -> (saved: MailSettings)
    ensures
        final(state)@ == (AppStateView { mail_settings: settings@, ..old(state)@ }),
        saved@ == settings@,
{
    state.mail_settings = settings.clone();
    settings
}

/// `task` with `subtasks` in place of its own.
pub open spec fn with_subtasks(task: TaskView, subtasks: Seq<SubtaskView>) -> TaskView {
    TaskView { subtasks, ..task }
}

/// Appends a subtask to the first task with the id `task_id`, under the
/// task's next subtask id. Where there is no such task, nothing changes.
pub fn add_subtask(state: &mut AppState, task_id: i32, description: String) -> (snapshot: Vec<Task>)
    requires
        forall|i: int, k: int|
            0 <= i < old(state).tasks.len() && old(state).tasks[i].id == task_id && 0 <= k
                < old(state).tasks[i].subtasks.len() ==> old(state).tasks[i].subtasks[k].id
                < i32::MAX,
    ensures
        final(state)@ == (AppStateView {
            tasks: match index_with_number(old(state)@.tasks, task_id) {
                Some(i) => old(state)@.tasks.update(
                    i,
                    with_subtasks(
                        old(state)@.tasks[i],
                        old(state)@.tasks[i].subtasks.push(
                            SubtaskView {
                                id: next_subtask_id(old(state)@.tasks[i].subtasks) as i32,
                                description: description@,
                                completed: false,
                            },
                        ),
                    ),
                ),
                None => old(state)@.tasks,
            },
            ..old(state)@
        }),
        old(state)@.ids_are_fresh() ==> final(state)@.ids_are_fresh(),
        snapshot.deep_view() == final(state)@.tasks,
{
    if let Some(i) = find_by_number(&state.tasks, task_id) {
        proof {
            crate::collection::lemma_index_with_number(state@.tasks, task_id);
        }
        let id = state.tasks[i].next_subtask_id();
        let subtask = Subtask::new(id, description);
        let ghost held = state.tasks[i as int]@.subtasks;
        state.tasks[i].subtasks.push(subtask);
        assert(state.tasks[i as int]@.subtasks =~= held.push(subtask@));
        assert(state.tasks.deep_view() =~= old(state)@.tasks.update(
            i as int,
            with_subtasks(old(state)@.tasks[i as int], held.push(subtask@)),
        ));
    }
    snapshot_tasks(&state.tasks)
}

/// Overwrites the description and the state of the first subtask with the
/// id `subtask_id` in the first task with the id `task_id`. Where either is
/// missing, nothing changes.
pub fn update_subtask(
    state: &mut AppState,
    task_id: i32,
    subtask_id: i32,
    description: String,
    completed: bool,
) -> (snapshot: Vec<Task>)
    ensures
        final(state)@ == (AppStateView {
            tasks: match index_with_number(old(state)@.tasks, task_id) {
                Some(i) => match index_with_number(old(state)@.tasks[i].subtasks, subtask_id) {
                    Some(j) => old(state)@.tasks.update(
                        i,
                        with_subtasks(
                            old(state)@.tasks[i],
                            old(state)@.tasks[i].subtasks.update(
                                j,
                                SubtaskView {
                                    description: description@,
                                    completed,
                                    ..old(state)@.tasks[i].subtasks[j]
                                },
                            ),
                        ),
                    ),
                    None => old(state)@.tasks,
                },
                None => old(state)@.tasks,
            },
            ..old(state)@
        }),
        old(state)@.ids_are_fresh() ==> final(state)@.ids_are_fresh(),
        snapshot.deep_view() == final(state)@.tasks,
{
    if let Some(i) = find_by_number(&state.tasks, task_id) {
        if let Some(j) = find_by_number(&state.tasks[i].subtasks, subtask_id) {
            let ghost held = state.tasks[i as int]@.subtasks;
            state.tasks[i].subtasks[j].description = description;
            state.tasks[i].subtasks[j].completed = completed;
            let ghost changed = held.update(
                j as int,
                SubtaskView { description: description@, completed, ..held[j as int] },
            );
            assert(state.tasks[i as int]@.subtasks =~= changed);
            assert(state.tasks.deep_view() =~= old(state)@.tasks.update(
                i as int,
                with_subtasks(old(state)@.tasks[i as int], changed),
            ));
        }
    }
    snapshot_tasks(&state.tasks)
}

/// Removes every subtask with the id `subtask_id` from the first task with
/// the id `task_id`. Where there is no such task, nothing changes.
pub fn delete_subtask(state: &mut AppState, task_id: i32, subtask_id: i32) -> (snapshot: Vec<Task>)
    ensures
        final(state)@ == (AppStateView {
            tasks: match index_with_number(old(state)@.tasks, task_id) {
                Some(i) => old(state)@.tasks.update(
                    i,
                    with_subtasks(
                        old(state)@.tasks[i],
                        without_number(old(state)@.tasks[i].subtasks, subtask_id),
                    ),
                ),
                None => old(state)@.tasks,
            },
            ..old(state)@
        }),
        old(state)@.ids_are_fresh() ==> final(state)@.ids_are_fresh(),
        snapshot.deep_view() == final(state)@.tasks,
{
    if let Some(i) = find_by_number(&state.tasks, task_id) {
        remove_by_number(&mut state.tasks[i].subtasks, subtask_id);
        assert(state.tasks.deep_view() =~= old(state)@.tasks.update(
            i as int,
            with_subtasks(
                old(state)@.tasks[i as int],
                without_number(old(state)@.tasks[i as int].subtasks, subtask_id),
            ),
        ));
    }
    snapshot_tasks(&state.tasks)
}

/// Turns the first subtask with the id `subtask_id` in the first task with
/// the id `task_id` from open to completed, or back. Where either is
/// missing, nothing changes.
pub fn toggle_subtask(state: &mut AppState, task_id: i32, subtask_id: i32) -> (snapshot: Vec<Task>)
    ensures
        final(state)@ == (AppStateView {
            tasks: match index_with_number(old(state)@.tasks, task_id) {
                Some(i) => match index_with_number(old(state)@.tasks[i].subtasks, subtask_id) {
                    Some(j) => old(state)@.tasks.update(
                        i,
                        with_subtasks(
                            old(state)@.tasks[i],
                            old(state)@.tasks[i].subtasks.update(
                                j,
                                SubtaskView {
                                    completed: !old(state)@.tasks[i].subtasks[j].completed,
                                    ..old(state)@.tasks[i].subtasks[j]
                                },
                            ),
                        ),
                    ),
                    None => old(state)@.tasks,
                },
                None => old(state)@.tasks,
            },
            ..old(state)@
        }),
        old(state)@.ids_are_fresh() ==> final(state)@.ids_are_fresh(),
        snapshot.deep_view() == final(state)@.tasks,
{
    if let Some(i) = find_by_number(&state.tasks, task_id) {
        if let Some(j) = find_by_number(&state.tasks[i].subtasks, subtask_id) {
            let ghost held = state.tasks[i as int]@.subtasks;
            state.tasks[i].subtasks[j].completed = !state.tasks[i].subtasks[j].completed;
            let ghost changed = held.update(
                j as int,
                SubtaskView { completed: !held[j as int].completed, ..held[j as int] },
            );
            assert(state.tasks[i as int]@.subtasks =~= changed);
            assert(state.tasks.deep_view() =~= old(state)@.tasks.update(
                i as int,
                with_subtasks(old(state)@.tasks[i as int], changed),
            ));
        }
    }
    snapshot_tasks(&state.tasks)
}

/// An edit that changes the due date or the task's own threshold releases
/// the reminder latch, also where the reminder had fired already; an edit
/// that changes neither leaves the latch as it is.
pub proof fn lemma_edit_rearms_reminder(
    task: TaskView,
    description: Seq<char>,
    start_date: Option<Seq<char>>,
    due_date: Seq<char>,
    group: Seq<char>,
    details: Seq<char>,
    notification_minutes: Option<i32>,
    dependencies: Option<Seq<i32>>,
)
    ensures
        due_date != task.due_date || notification_minutes != task.notification_minutes
            ==> !revised_task(
            task,
            description,
            start_date,
            due_date,
            group,
            details,
            notification_minutes,
            dependencies,
        ).notified,
        due_date == task.due_date && notification_minutes == task.notification_minutes
            ==> revised_task(
            task,
            description,
            start_date,
            due_date,
            group,
            details,
            notification_minutes,
            dependencies,
        ).notified == task.notified,
{
}

} // verus!
