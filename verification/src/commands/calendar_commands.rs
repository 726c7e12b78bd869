//! Commands on calendar events.

use crate::calendar::{created_event, revised_event, CalendarEvent};
use crate::clock::current_time;
use crate::collection::{find_by_id, index_with_id, remove_by_id, without_id};
use crate::ident::{fresh_id, UUID_TEXT_LEN};
use crate::state::{AppState, AppStateView};
use vstd::prelude::*;

verus! {

/// A copy of `events`.
pub fn snapshot_events(events: &Vec<CalendarEvent>) -> (snapshot: Vec<CalendarEvent>)
    ensures
        snapshot.deep_view() == events.deep_view(),
{
    let snapshot = events.clone();
    assert(snapshot.deep_view() =~= events.deep_view());
    snapshot
}

/// All events, in their order.
pub fn get_calendar_events(state: &AppState) -> (snapshot: Vec<CalendarEvent>)
    ensures
        snapshot.deep_view() == state@.calendar_events,
{
    snapshot_events(&state.calendar_events)
}

/// Appends a new event with a random identifier, created now.
pub fn create_calendar_event(
    state: &mut AppState,
    title: String,
    description: String,
    start_datetime: String,
    end_datetime: Option<String>,
    all_day: bool,
    color: Option<String>,
    recurrence_rule: Option<String>,
    reminder_minutes: Option<i32>,
) -> (snapshot: Vec<CalendarEvent>)
    ensures
        final(state)@.calendar_events.len() == old(state)@.calendar_events.len() + 1,
        final(state)@ == (AppStateView {
            calendar_events: old(state)@.calendar_events.push(
                final(state)@.calendar_events.last(),
            ),
            ..old(state)@
        }),
        final(state)@.calendar_events.last().id.len() == UUID_TEXT_LEN,
        final(state)@.calendar_events.last() == created_event(
            final(state)@.calendar_events.last().id,
            final(state)@.calendar_events.last().created_at,
            title@,
            description@,
            start_datetime@,
            end_datetime.deep_view(),
            all_day,
            color.deep_view(),
            recurrence_rule.deep_view(),
            reminder_minutes,
        ),
        snapshot.deep_view() == final(state)@.calendar_events,
{
    let event = CalendarEvent::created(
        fresh_id(),
        current_time(),
        title,
        description,
        start_datetime,
        end_datetime,
        all_day,
        color,
        recurrence_rule,
        reminder_minutes,
    );
    state.calendar_events.push(event);
    assert(state.calendar_events.deep_view() =~= old(state)@.calendar_events.push(event@));
    snapshot_events(&state.calendar_events)
}

/// Overwrites the first event with the identifier `id` and stamps it with
/// the current time. Where there is none, nothing changes.
pub fn update_calendar_event(
    state: &mut AppState,
    id: String,
    title: String,
    description: String,
    start_datetime: String,
    end_datetime: Option<String>,
    all_day: bool,
    color: Option<String>,
    recurrence_rule: Option<String>,
    reminder_minutes: Option<i32>,
) -> (snapshot: Vec<CalendarEvent>)
    ensures
        final(state)@ == (AppStateView {
            calendar_events: match index_with_id(old(state)@.calendar_events, id@) {
                Some(i) => old(state)@.calendar_events.update(
                    i,
                    revised_event(
                        old(state)@.calendar_events[i],
                        final(state)@.calendar_events[i].updated_at,
                        title@,
                        description@,
                        start_datetime@,
                        end_datetime.deep_view(),
                        all_day,
                        color.deep_view(),
                        recurrence_rule.deep_view(),
                        reminder_minutes,
                    ),
                ),
                None => old(state)@.calendar_events,
            },
            ..old(state)@
        }),
        snapshot.deep_view() == final(state)@.calendar_events,
{
    if let Some(i) = find_by_id(&state.calendar_events, &id) {
        state.calendar_events[i].revise(
            current_time(),
            title,
            description,
            start_datetime,
            end_datetime,
            all_day,
            color,
            recurrence_rule,
            reminder_minutes,
        );
        assert(state.calendar_events.deep_view() =~= old(state)@.calendar_events.update(
            i as int,
            state.calendar_events[i as int]@,
        ));
    }
    snapshot_events(&state.calendar_events)
}

/// Removes every event with the identifier `id`.
pub fn delete_calendar_event(state: &mut AppState, id: String) -> (snapshot: Vec<CalendarEvent>)
    ensures
        final(state)@ == (AppStateView {
            calendar_events: without_id(old(state)@.calendar_events, id@),
            ..old(state)@
        }),
        snapshot.deep_view() == final(state)@.calendar_events,
{
    remove_by_id(&mut state.calendar_events, &id);
    snapshot_events(&state.calendar_events)
}

} // verus!
