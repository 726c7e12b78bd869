//! Tasks and their subtasks.

use crate::collection::{Numbered, NumberedEntity};
use vstd::prelude::*;

verus! {

/// What a [`Subtask`] holds, as mathematical values.
pub struct SubtaskView {
    pub id: i32,
    pub description: Seq<char>,
    pub completed: bool,
}

/// One step of a task. Its id is unique within the task that owns it.
#[derive(Debug)]
pub struct Subtask {
    pub id: i32,
    pub description: String,
    pub completed: bool,
}

impl View for Subtask {
    type V = SubtaskView;

    open spec fn view(&self) -> SubtaskView {
        SubtaskView { id: self.id, description: self.description@, completed: self.completed }
    }
}

impl DeepView for Subtask {
    type V = SubtaskView;

    open spec fn deep_view(&self) -> SubtaskView {
        self@
    }
}

impl Clone for Subtask {
    fn clone(&self) -> (copy: Self)
        ensures
            copy@ == self@,
    {
        Subtask { id: self.id, description: self.description.clone(), completed: self.completed }
    }
}

impl Subtask {
    /// A subtask that is not yet completed.
    pub fn new(id: i32, description: String) -> (subtask: Self)
        ensures
            subtask@ == (SubtaskView { id, description: description@, completed: false }),
    {
        Self { id, description, completed: false }
    }
}

/// What a [`Task`] holds, as mathematical values.
pub struct TaskView {
    pub id: i32,
    pub description: Seq<char>,
    pub start_date: Option<Seq<char>>,
    pub due_date: Seq<char>,
    pub group: Seq<char>,
    pub details: Seq<char>,
    pub completed: bool,
    pub notified: bool,
    pub notification_minutes: Option<i32>,
    pub subtasks: Seq<SubtaskView>,
    pub dependencies: Option<Seq<i32>>,
}

/// A task with a due date. `notified` is a latch: it is set once a reminder
/// has fired, and cleared again when the due date or the threshold changes.
#[derive(Debug)]
pub struct Task {
    pub id: i32,
    pub description: String,
    pub start_date: Option<String>,
    pub due_date: String,
    pub group: String,
    pub details: String,
    pub completed: bool,
    pub notified: bool,
    pub notification_minutes: Option<i32>,
    pub subtasks: Vec<Subtask>,
    pub dependencies: Option<Vec<i32>>,
}

impl View for Task {
    type V = TaskView;

    open spec fn view(&self) -> TaskView {
        TaskView {
            id: self.id,
            description: self.description@,
            start_date: self.start_date.deep_view(),
            due_date: self.due_date@,
            group: self.group@,
            details: self.details@,
            completed: self.completed,
            notified: self.notified,
            notification_minutes: self.notification_minutes,
            subtasks: self.subtasks.deep_view(),
            dependencies: self.dependencies.deep_view(),
        }
    }
}

impl DeepView for Task {
    type V = TaskView;

    open spec fn deep_view(&self) -> TaskView {
        self@
    }
}

/// The largest id among `subtasks`, which must not be empty.
pub open spec fn largest_subtask_id(subtasks: Seq<SubtaskView>) -> int
    recommends
        subtasks.len() > 0,
    decreases subtasks.len(),
{
    if subtasks.len() <= 1 {
        subtasks[0].id as int
    } else {
        let before = largest_subtask_id(subtasks.drop_last());
        if subtasks.last().id > before {
            subtasks.last().id as int
        } else {
            before
        }
    }
}

/// The id that the next subtask gets: 1 for the first one, else one more than
/// the largest id in use (not one more than the count).
pub open spec fn next_subtask_id(subtasks: Seq<SubtaskView>) -> int {
    if subtasks.len() == 0 {
        1
    } else {
        largest_subtask_id(subtasks) + 1
    }
}

/// `largest_subtask_id` is an id of the sequence, and no id exceeds it.
pub proof fn lemma_largest_subtask_id(subtasks: Seq<SubtaskView>)
    requires
        subtasks.len() > 0,
    ensures
        exists|i: int| 0 <= i < subtasks.len() && subtasks[i].id == largest_subtask_id(subtasks),
        forall|i: int| 0 <= i < subtasks.len() ==> subtasks[i].id <= largest_subtask_id(subtasks),
    decreases subtasks.len(),
{
    if subtasks.len() > 1 {
        let front = subtasks.drop_last();
        lemma_largest_subtask_id(front);
        let k = choose|i: int| 0 <= i < front.len() && front[i].id == largest_subtask_id(front);
        assert(front[k] == subtasks[k]);
        assert forall|i: int| 0 <= i < subtasks.len() implies subtasks[i].id
            <= largest_subtask_id(subtasks) by {
            if i < front.len() {
                assert(front[i] == subtasks[i]);
            }
        }
        if subtasks.last().id > largest_subtask_id(front) {
            assert(subtasks[subtasks.len() - 1].id == largest_subtask_id(subtasks));
        } else {
            assert(subtasks[k].id == largest_subtask_id(subtasks));
        }
    } else {
        assert(subtasks[0].id == largest_subtask_id(subtasks));
    }
}

impl Task {
    /// The id for a subtask that is about to be added.
    pub fn next_subtask_id(&self) -> (id: i32)
        requires
            forall|i: int| 0 <= i < self.subtasks.len() ==> self.subtasks[i].id < i32::MAX,
        ensures
            id == next_subtask_id(self@.subtasks),
    {
        let n = self.subtasks.len();
        if n == 0 {
            return 1;
        }
        let mut largest: i32 = self.subtasks[0].id;
        let mut i: usize = 1;
        assert(self@.subtasks.take(1).len() == 1);
        while i < n
            invariant
                1 <= i <= n,
                n == self.subtasks.len(),
                largest == largest_subtask_id(self@.subtasks.take(i as int)),
                largest < i32::MAX,
                forall|k: int| 0 <= k < self.subtasks.len() ==> self.subtasks[k].id < i32::MAX,
            decreases n - i,
        {
            let ghost grown = self@.subtasks.take(i + 1);
            assert(grown.drop_last() =~= self@.subtasks.take(i as int));
            assert(grown.last() == self@.subtasks[i as int]);
            if self.subtasks[i].id > largest {
                largest = self.subtasks[i].id;
            }
            i += 1;
        }
        assert(self@.subtasks.take(n as int) =~= self@.subtasks);
        largest + 1
    }
}

impl Clone for Task {
    fn clone(&self) -> (copy: Self)
        ensures
            copy@ == self@,
    {
        let subtasks = self.subtasks.clone();
        assert(subtasks.deep_view() =~= self.subtasks.deep_view());
        let dependencies = self.dependencies.clone();
        assert(dependencies.deep_view() =~= self.dependencies.deep_view());
        Task {
            id: self.id,
            description: self.description.clone(),
            start_date: self.start_date.clone(),
            due_date: self.due_date.clone(),
            group: self.group.clone(),
            details: self.details.clone(),
            completed: self.completed,
            notified: self.notified,
            notification_minutes: self.notification_minutes,
            subtasks,
            dependencies,
        }
    }
}

impl Numbered for SubtaskView {
    open spec fn number(&self) -> i32 {
        self.id
    }
}

impl NumberedEntity for Subtask {
    fn number(&self) -> (number: i32) {
        self.id
    }
}

impl Numbered for TaskView {
    open spec fn number(&self) -> i32 {
        self.id
    }
}

impl NumberedEntity for Task {
    fn number(&self) -> (number: i32) {
        self.id
    }
}


/// The next subtask id is in use by no subtask: it is above them all.
pub proof fn lemma_next_subtask_id_is_fresh(subtasks: Seq<SubtaskView>)
    ensures
        forall|i: int| 0 <= i < subtasks.len() ==> subtasks[i].id < next_subtask_id(subtasks),
        subtasks.len() == 0 ==> next_subtask_id(subtasks) == 1,
        subtasks.len() > 0 ==> exists|i: int|
            0 <= i < subtasks.len() && next_subtask_id(subtasks) == subtasks[i].id + 1,
{
    if subtasks.len() > 0 {
        lemma_largest_subtask_id(subtasks);
        let i = choose|i: int|
            0 <= i < subtasks.len() && subtasks[i].id == largest_subtask_id(subtasks);
        assert(next_subtask_id(subtasks) == subtasks[i].id + 1);
    }
}

} // verus!
