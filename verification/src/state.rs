//! The application's data, one ordered collection for each kind of entity.

use crate::calendar::{CalendarEvent, CalendarEventView};
use crate::memo::{Folder, FolderView, Memo, MemoView};
use crate::reading_memo::{ReadingBook, ReadingBookView};
use crate::settings::{MailSettings, MailSettingsView};
use crate::task::{Task, TaskView};
use vstd::prelude::*;

verus! {

/// What an [`AppState`] holds, as mathematical values.
pub struct AppStateView {
    pub tasks: Seq<TaskView>,
    pub groups: Seq<Seq<char>>,
    pub next_id: i32,
    pub mail_settings: MailSettingsView,
    pub memos: Seq<MemoView>,
    pub folders: Seq<FolderView>,
    pub reading_books: Seq<ReadingBookView>,
    pub calendar_events: Seq<CalendarEventView>,
}

/// Everything the application keeps in memory. Commands take it by mutable
/// reference; whoever shares it between threads puts it behind a lock.
#[derive(Debug)]
pub struct AppState {
    pub tasks: Vec<Task>,
    pub groups: Vec<String>,
    pub next_id: i32,
    pub mail_settings: MailSettings,
    pub memos: Vec<Memo>,
    pub folders: Vec<Folder>,
    pub reading_books: Vec<ReadingBook>,
    pub calendar_events: Vec<CalendarEvent>,
}

impl View for AppState {
    type V = AppStateView;

    open spec fn view(&self) -> AppStateView {
        AppStateView {
            tasks: self.tasks.deep_view(),
            groups: self.groups.deep_view(),
            next_id: self.next_id,
            mail_settings: self.mail_settings@,
            memos: self.memos.deep_view(),
            folders: self.folders.deep_view(),
            reading_books: self.reading_books.deep_view(),
            calendar_events: self.calendar_events.deep_view(),
        }
    }
}

impl AppStateView {
    /// Task ids are handed out in rising order: every task's id lies below
    /// the id that the next task gets.
    pub open spec fn ids_are_fresh(self) -> bool {
        forall|i: int| 0 <= i < self.tasks.len() ==> (#[trigger] self.tasks[i]).id < self.next_id
    }
}

/// The largest id among `tasks`, which must not be empty.
pub open spec fn largest_task_id(tasks: Seq<TaskView>) -> int
    recommends
        tasks.len() > 0,
    decreases tasks.len(),
{
    if tasks.len() <= 1 {
        tasks[0].id as int
    } else {
        let before = largest_task_id(tasks.drop_last());
        if tasks.last().id > before {
            tasks.last().id as int
        } else {
            before
        }
    }
}

/// The id that the next task gets when `tasks` are all there is: 1 for an
/// empty collection, else one more than the largest id.
pub open spec fn first_free_id(tasks: Seq<TaskView>) -> int {
    if tasks.len() == 0 {
        1
    } else {
        largest_task_id(tasks) + 1
    }
}

/// `largest_task_id` is an id of the collection, and no id exceeds it.
pub proof fn lemma_largest_task_id(tasks: Seq<TaskView>)
    requires
        tasks.len() > 0,
    ensures
        exists|i: int| 0 <= i < tasks.len() && tasks[i].id == largest_task_id(tasks),
        forall|i: int| 0 <= i < tasks.len() ==> tasks[i].id <= largest_task_id(tasks),
    decreases tasks.len(),
{
    if tasks.len() > 1 {
        let front = tasks.drop_last();
        lemma_largest_task_id(front);
        let k = choose|i: int| 0 <= i < front.len() && front[i].id == largest_task_id(front);
        assert(front[k] == tasks[k]);
        assert forall|i: int| 0 <= i < tasks.len() implies tasks[i].id <= largest_task_id(
            tasks,
        ) by {
            if i < front.len() {
                assert(front[i] == tasks[i]);
            }
        }
        if tasks.last().id > largest_task_id(front) {
            assert(tasks[tasks.len() - 1].id == largest_task_id(tasks));
        } else {
            assert(tasks[k].id == largest_task_id(tasks));
        }
    } else {
        assert(tasks[0].id == largest_task_id(tasks));
    }
}

impl AppState {
    /// The state at startup, from what was loaded. The next task id is one
    /// more than the largest id that was seen.
    pub fn new(
        tasks: Vec<Task>,
        groups: Vec<String>,
        mail_settings: MailSettings,
        memos: Vec<Memo>,
        folders: Vec<Folder>,
        reading_books: Vec<ReadingBook>,
        calendar_events: Vec<CalendarEvent>,
    ) -> (state: Self)
        requires
            forall|i: int| 0 <= i < tasks.len() ==> tasks[i].id < i32::MAX,
        ensures
            state@ == (AppStateView {
                tasks: tasks.deep_view(),
                groups: groups.deep_view(),
                next_id: first_free_id(tasks.deep_view()) as i32,
                mail_settings: mail_settings@,
                memos: memos.deep_view(),
                folders: folders.deep_view(),
                reading_books: reading_books.deep_view(),
                calendar_events: calendar_events.deep_view(),
            }),
            state@.next_id == first_free_id(tasks.deep_view()),
            state@.ids_are_fresh(),
    {
        let n = tasks.len();
        let mut next_id: i32 = 1;
        if n > 0 {
            let mut largest: i32 = tasks[0].id;
            let mut i: usize = 1;
            assert(tasks.deep_view().take(1).len() == 1);
            while i < n
                invariant
                    1 <= i <= n,
                    n == tasks.len(),
                    largest == largest_task_id(tasks.deep_view().take(i as int)),
                    largest < i32::MAX,
                    forall|k: int| 0 <= k < tasks.len() ==> tasks[k].id < i32::MAX,
                decreases n - i,
            {
                let ghost grown = tasks.deep_view().take(i + 1);
                assert(grown.drop_last() =~= tasks.deep_view().take(i as int));
                assert(grown.last() == tasks.deep_view()[i as int]);
                if tasks[i].id > largest {
                    largest = tasks[i].id;
                }
                i += 1;
            }
            assert(tasks.deep_view().take(n as int) =~= tasks.deep_view());
            next_id = largest + 1;
        }
        proof {
            if n > 0 {
                lemma_largest_task_id(tasks.deep_view());
            }
        }
        AppState {
            tasks,
            groups,
            next_id,
            mail_settings,
            memos,
            folders,
            reading_books,
            calendar_events,
        }
    }
}

} // verus!
