//! Calendar events.

use crate::clock::Timestamp;
use crate::collection::{Entity, Identified};
use vstd::prelude::*;

verus! {

/// What a [`CalendarEvent`] holds, as mathematical values.
pub struct CalendarEventView {
    pub id: Seq<char>,
    pub title: Seq<char>,
    pub description: Seq<char>,
    pub start_datetime: Seq<char>,
    pub end_datetime: Option<Seq<char>>,
    pub all_day: bool,
    pub color: Option<Seq<char>>,
    pub recurrence_rule: Option<Seq<char>>,
    pub reminder_minutes: Option<i32>,
    pub created_at: Timestamp,
    pub updated_at: Timestamp,
}

/// An entry in the calendar. Start and end are kept as the text that was
/// entered; the recurrence rule is stored and never evaluated.
#[derive(Debug)]
pub struct CalendarEvent {
    pub id: String,
    pub title: String,
    pub description: String,
    pub start_datetime: String,
    pub end_datetime: Option<String>,
    pub all_day: bool,
    pub color: Option<String>,
    pub recurrence_rule: Option<String>,
    pub reminder_minutes: Option<i32>,
    pub created_at: Timestamp,
    pub updated_at: Timestamp,
}

impl View for CalendarEvent {
    type V = CalendarEventView;

    open spec fn view(&self) -> CalendarEventView {
        CalendarEventView {
            id: self.id@,
            title: self.title@,
            description: self.description@,
            start_datetime: self.start_datetime@,
            end_datetime: self.end_datetime.deep_view(),
            all_day: self.all_day,
            color: self.color.deep_view(),
            recurrence_rule: self.recurrence_rule.deep_view(),
            reminder_minutes: self.reminder_minutes,
            created_at: self.created_at,
            updated_at: self.updated_at,
        }
    }
}

impl DeepView for CalendarEvent {
    type V = CalendarEventView;

    open spec fn deep_view(&self) -> CalendarEventView {
        self@
    }
}

impl Clone for CalendarEvent {
    fn clone(&self) -> (copy: Self)
        ensures
            copy@ == self@,
    {
        CalendarEvent {
            id: self.id.clone(),
            title: self.title.clone(),
            description: self.description.clone(),
            start_datetime: self.start_datetime.clone(),
            end_datetime: self.end_datetime.clone(),
            all_day: self.all_day,
            color: self.color.clone(),
            recurrence_rule: self.recurrence_rule.clone(),
            reminder_minutes: self.reminder_minutes,
            created_at: self.created_at,
            updated_at: self.updated_at,
        }
    }
}

/// The event that comes into being at `now` under the identifier `id`.
pub open spec fn created_event(
    id: Seq<char>,
    now: Timestamp,
    title: Seq<char>,
    description: Seq<char>,
    start_datetime: Seq<char>,
    end_datetime: Option<Seq<char>>,
    all_day: bool,
    color: Option<Seq<char>>,
    recurrence_rule: Option<Seq<char>>,
    reminder_minutes: Option<i32>,
) -> CalendarEventView {
    CalendarEventView {
        id,
        title,
        description,
        start_datetime,
        end_datetime,
        all_day,
        color,
        recurrence_rule,
        reminder_minutes,
        created_at: now,
        updated_at: now,
    }
}

/// `event` after an edit at `now`: identifier and creation time stay.
pub open spec fn revised_event(
    event: CalendarEventView,
    now: Timestamp,
    title: Seq<char>,
    description: Seq<char>,
    start_datetime: Seq<char>,
    end_datetime: Option<Seq<char>>,
    all_day: bool,
    color: Option<Seq<char>>,
    recurrence_rule: Option<Seq<char>>,
    reminder_minutes: Option<i32>,
) -> CalendarEventView {
    CalendarEventView {
        title,
        description,
        start_datetime,
        end_datetime,
        all_day,
        color,
        recurrence_rule,
        reminder_minutes,
        updated_at: now,
        ..event
    }
}

impl CalendarEvent {
    /// The event that comes into being at `now` under the identifier `id`.
    pub fn created(
        id: String,
        now: Timestamp,
        title: String,
        description: String,
        start_datetime: String,
        end_datetime: Option<String>,
        all_day: bool,
        color: Option<String>,
        recurrence_rule: Option<String>,
        reminder_minutes: Option<i32>,
    ) -> (event: Self)
        ensures
            event@ == created_event(
                id@,
                now,
                title@,
                description@,
                start_datetime@,
                end_datetime.deep_view(),
                all_day,
                color.deep_view(),
                recurrence_rule.deep_view(),
                reminder_minutes,
            ),
    {
        Self {
            id,
            title,
            description,
            start_datetime,
            end_datetime,
            all_day,
            color,
            recurrence_rule,
            reminder_minutes,
            created_at: now,
            updated_at: now,
        }
    }

    /// Overwrites what can be edited and stamps the event with `now`.
    pub fn revise(
        &mut self,
        now: Timestamp,
        title: String,
        description: String,
        start_datetime: String,
        end_datetime: Option<String>,
        all_day: bool,
        color: Option<String>,
        recurrence_rule: Option<String>,
        reminder_minutes: Option<i32>,
    )
        ensures
            final(self)@ == revised_event(
                old(self)@,
                now,
                title@,
                description@,
                start_datetime@,
                end_datetime.deep_view(),
                all_day,
                color.deep_view(),
                recurrence_rule.deep_view(),
                reminder_minutes,
            ),
    {
        self.title = title;
        self.description = description;
        self.start_datetime = start_datetime;
        self.end_datetime = end_datetime;
        self.all_day = all_day;
        self.color = color;
        self.recurrence_rule = recurrence_rule;
        self.reminder_minutes = reminder_minutes;
        self.updated_at = now;
    }
}

impl Identified for CalendarEventView {
    open spec fn identifier(&self) -> Seq<char> {
        self.id
    }
}

impl Entity for CalendarEvent {
    fn id(&self) -> (id: &String) {
        &self.id
    }
}


} // verus!
