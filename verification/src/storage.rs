//! Entities as rows of a relational store, and back. Lists of texts are
//! stored as JSON, instants as RFC 3339 text, page counts and ratings as
//! 32-bit integers, the reading status as a word.

use crate::calendar::{CalendarEvent, CalendarEventView};
use crate::clock::{read_rfc3339, rfc3339_instant, rfc3339_text, write_rfc3339, Timestamp};
use crate::memo::{Memo, MemoView};
use crate::reading_memo::{
    status_from_text, status_text, ReadingBook, ReadingBookView, ReadingNote, ReadingSession,
    ReadingStatus,
};
use crate::task::{Subtask, Task, TaskView};
use vstd::prelude::*;

verus! {

/// Why an entity cannot be written as a row.
#[derive(Clone, Copy, Debug, PartialEq, Eq, Structural)]
pub enum StorageError {
    /// One of its instants lies outside the years that can be written.
    TimeOutOfRange,
}

/// What `serde_json::to_string` writes for a list of texts; `None` where it
/// fails.
pub uninterp spec fn json_of_texts(texts: Seq<Seq<char>>) -> Option<Seq<char>>;

/// The list of texts that `serde_json::from_str` reads from `json`; `None`
/// where it fails.
pub uninterp spec fn texts_of_json(json: Seq<char>) -> Option<Seq<Seq<char>>>;

/// Calls `serde_json::to_string` on a vector of strings. Trusted: the
/// result is a function of the texts alone, named [`json_of_texts`].
#[verifier::external_body]
pub(crate) fn encode_texts(texts: &Vec<String>) -> (json: Option<String>)
    ensures
        json.deep_view() == json_of_texts(texts.deep_view()),
{
    serde_json::to_string(texts).ok()
}

/// Calls `serde_json::from_str` for a vector of strings. Trusted: the result
/// is a function of the text alone, named [`texts_of_json`].
#[verifier::external_body]
pub(crate) fn decode_texts(json: &str) -> (texts: Option<Vec<String>>)
    ensures
        texts.deep_view() == texts_of_json(json@),
{
    serde_json::from_str::<Vec<String>>(json).ok()
}

/// The column that holds `texts`: their JSON, or an empty JSON list where
/// they cannot be written.
pub open spec fn texts_column(texts: Seq<Seq<char>>) -> Seq<char> {
    match json_of_texts(texts) {
        Some(json) => json,
        None => "[]"@,
    }
}

/// The texts that the column `json` holds: none where it cannot be read.
pub open spec fn column_texts(json: Seq<char>) -> Seq<Seq<char>> {
    match texts_of_json(json) {
        Some(texts) => texts,
        None => Seq::empty(),
    }
}

/// The instant that the column `text` holds, or `fallback` where it cannot
/// be read.
pub open spec fn column_instant(text: Seq<char>, fallback: Timestamp) -> Timestamp {
    match rfc3339_instant(text) {
        Some(instant) => instant,
        None => fallback,
    }
}

/// The instant that an optional column holds: none where the column is
/// empty or cannot be read.
pub open spec fn column_optional_instant(text: Option<Seq<char>>) -> Option<Timestamp> {
    match text {
        Some(text) => rfc3339_instant(text),
        None => None,
    }
}

/// A page count as the 32-bit integer stored for it: counts above the
/// largest such integer wrap around to negative ones.
pub open spec fn stored_count(count: u32) -> i32 {
    if count <= i32::MAX {
        count as i32
    } else {
        (count - 0x1_0000_0000) as i32
    }
}

/// The page count that a stored integer stands for.
pub open spec fn loaded_count(stored: i32) -> u32 {
    if stored >= 0 {
        stored as u32
    } else {
        (stored + 0x1_0000_0000) as u32
    }
}

/// The percentage or rating that a stored integer stands for: its lowest
/// eight bits.
pub open spec fn loaded_byte(stored: i32) -> u8 {
    (stored as int % 256) as u8
}

/// Writes `texts` for their column.
pub fn texts_to_column(texts: &Vec<String>) -> (json: String)
    ensures
        json@ == texts_column(texts.deep_view()),
{
    match encode_texts(texts) {
        Some(json) => json,
        None => "[]".to_owned(),
    }
}

/// Reads the texts that a column holds.
pub fn texts_from_column(json: &str) -> (texts: Vec<String>)
    ensures
        texts.deep_view() == column_texts(json@),
{
    match decode_texts(json) {
        Some(texts) => texts,
        None => {
            let texts: Vec<String> = Vec::new();
            assert(texts.deep_view() =~= Seq::<Seq<char>>::empty());
            texts
        },
    }
}

/// Reads the instant that a column holds, or takes `fallback`.
pub fn instant_from_column(text: &str, fallback: Timestamp) -> (instant: Timestamp)
    ensures
        instant == column_instant(text@, fallback),
{
    match read_rfc3339(text) {
        Some(instant) => instant,
        None => fallback,
    }
}

/// Reads the instant that an optional column holds.
pub fn optional_instant_from_column(text: &Option<String>) -> (instant: Option<Timestamp>)
    ensures
        instant == column_optional_instant(text.deep_view()),
{
    match text {
        Some(text) => read_rfc3339(text.as_str()),
        None => None,
    }
}

/// The integer that is stored for a page count.
pub fn count_to_column(count: u32) -> (stored: i32)
    ensures
        stored == stored_count(count),
{
    if count <= 0x7fff_ffff {
        count as i32
    } else {
        (count as i64 - 0x1_0000_0000) as i32
    }
}

/// The page count that a stored integer stands for.
pub fn count_from_column(stored: i32) -> (count: u32)
    ensures
        count == loaded_count(stored),
{
    if stored >= 0 {
        stored as u32
    } else {
        (stored as i64 + 0x1_0000_0000) as u32
    }
}

/// The percentage or rating that a stored integer stands for.
pub fn byte_from_column(stored: i32) -> (byte: u8)
    ensures
        byte == loaded_byte(stored),
{
    if stored >= 0 {
        (stored % 256) as u8
    } else {
        let below: i64 = (-(stored as i64)) % 256;
        if below == 0 {
            0
        } else {
            (256 - below) as u8
        }
    }
}

/// Numbers that are stored and read back are the numbers they were.
pub proof fn lemma_numbers_round_trip(count: u32, byte: u8)
    ensures
        loaded_count(stored_count(count)) == count,
        loaded_byte(byte as i32) == byte,
{
}

/// A task as its row. The columns that hold the subtasks and the
/// dependencies are given as the subtasks and the dependencies themselves.
#[derive(Debug)]
pub struct TaskRow {
    pub id: i32,
    pub description: String,
    pub start_date: Option<String>,
    pub due_date: String,
    pub group_name: String,
    pub details: String,
    pub completed: i32,
    pub notified: i32,
    pub notification_minutes: Option<i32>,
    pub subtasks: Vec<Subtask>,
    pub dependencies: Option<Vec<i32>>,
}

/// The column for a flag: one where it is set, zero where it is not.
pub open spec fn flag_column(flag: bool) -> i32 {
    if flag {
        1
    } else {
        0
    }
}

/// The task that `row` holds: a flag is set where its column is not zero.
pub open spec fn loaded_task(row: TaskRow) -> TaskView {
    TaskView {
        id: row.id,
        description: row.description@,
        start_date: row.start_date.deep_view(),
        due_date: row.due_date@,
        group: row.group_name@,
        details: row.details@,
        completed: row.completed != 0,
        notified: row.notified != 0,
        notification_minutes: row.notification_minutes,
        subtasks: row.subtasks.deep_view(),
        dependencies: row.dependencies.deep_view(),
    }
}

/// Whether `row` is the row of `task`.
pub open spec fn row_holds_task(row: TaskRow, task: TaskView) -> bool {
    &&& row.id == task.id
    &&& row.description@ == task.description
    &&& row.start_date.deep_view() == task.start_date
    &&& row.due_date@ == task.due_date
    &&& row.group_name@ == task.group
    &&& row.details@ == task.details
    &&& row.completed == flag_column(task.completed)
    &&& row.notified == flag_column(task.notified)
    &&& row.notification_minutes == task.notification_minutes
    &&& row.subtasks.deep_view() == task.subtasks
    &&& row.dependencies.deep_view() == task.dependencies
}

/// Reads a task from its row.
pub fn task_from_row(row: TaskRow) -> (task: Task)
    ensures
        task@ == loaded_task(row),
{
    Task {
        id: row.id,
        description: row.description,
        start_date: row.start_date,
        due_date: row.due_date,
        group: row.group_name,
        details: row.details,
        completed: row.completed != 0,
        notified: row.notified != 0,
        notification_minutes: row.notification_minutes,
        subtasks: row.subtasks,
        dependencies: row.dependencies,
    }
}

/// Writes a task as its row.
pub fn task_to_row(task: &Task) -> (row: TaskRow)
    ensures
        row_holds_task(row, task@),
{
    let copy = task.clone();
    TaskRow {
        id: copy.id,
        description: copy.description,
        start_date: copy.start_date,
        due_date: copy.due_date,
        group_name: copy.group,
        details: copy.details,
        completed: if copy.completed {
            1
        } else {
            0
        },
        notified: if copy.notified {
            1
        } else {
            0
        },
        notification_minutes: copy.notification_minutes,
        subtasks: copy.subtasks,
        dependencies: copy.dependencies,
    }
}

/// A task that is written as a row and read back is the task it was, with
/// its subtasks, whatever of its optional fields are set.
pub proof fn lemma_task_round_trip(task: TaskView, row: TaskRow)
    requires
        row_holds_task(row, task),
    ensures
        loaded_task(row) == task,
{
}

/// A memo as its row.
#[derive(Debug)]
pub struct MemoRow {
    pub id: String,
    pub title: String,
    pub content: String,
    pub folder_id: Option<String>,
    pub tags: String,
    pub created_at: String,
    pub updated_at: String,
}

/// The memo that `row` holds when it is read at `now`: an instant that
/// cannot be read is taken to be `now`.
pub open spec fn loaded_memo(row: MemoRow, now: Timestamp) -> MemoView {
    MemoView {
        id: row.id@,
        title: row.title@,
        content: row.content@,
        folder_id: row.folder_id.deep_view(),
        tags: column_texts(row.tags@),
        created_at: column_instant(row.created_at@, now),
        updated_at: column_instant(row.updated_at@, now),
    }
}

/// Whether `row` is the row of `memo`.
pub open spec fn row_holds_memo(row: MemoRow, memo: MemoView) -> bool {
    &&& row.id@ == memo.id
    &&& row.title@ == memo.title
    &&& row.content@ == memo.content
    &&& row.folder_id.deep_view() == memo.folder_id
    &&& row.tags@ == texts_column(memo.tags)
    &&& Some(row.created_at@) == rfc3339_text(memo.created_at)
    &&& Some(row.updated_at@) == rfc3339_text(memo.updated_at)
}

/// Reads a memo from its row.
pub fn memo_from_row(row: MemoRow, now: Timestamp) -> (memo: Memo)
    ensures
        memo@ == loaded_memo(row, now),
{
    let tags = texts_from_column(row.tags.as_str());
    let created_at = instant_from_column(row.created_at.as_str(), now);
    let updated_at = instant_from_column(row.updated_at.as_str(), now);
    Memo {
        id: row.id,
        title: row.title,
        content: row.content,
        folder_id: row.folder_id,
        tags,
        created_at,
        updated_at,
    }
}

/// Writes a memo as its row.
pub fn memo_to_row(memo: &Memo) -> (row: Result<MemoRow, StorageError>)
    ensures
        row is Ok <==> rfc3339_text(memo@.created_at) is Some && rfc3339_text(memo@.updated_at)
            is Some,
        row matches Ok(written) ==> row_holds_memo(written, memo@),
{
    let created_at = match write_rfc3339(&memo.created_at) {
        Some(text) => text,
        None => { return Err(StorageError::TimeOutOfRange); },
    };
    let updated_at = match write_rfc3339(&memo.updated_at) {
        Some(text) => text,
        None => { return Err(StorageError::TimeOutOfRange); },
    };
    Ok(
        MemoRow {
            id: memo.id.clone(),
            title: memo.title.clone(),
            content: memo.content.clone(),
            folder_id: memo.folder_id.clone(),
            tags: texts_to_column(&memo.tags),
            created_at,
            updated_at,
        },
    )
}

/// A calendar event as its row.
#[derive(Debug)]
pub struct CalendarEventRow {
    pub id: String,
    pub title: String,
    pub description: String,
    pub start_datetime: String,
    pub end_datetime: Option<String>,
    pub all_day: i32,
    pub color: Option<String>,
    pub recurrence_rule: Option<String>,
    pub reminder_minutes: Option<i32>,
    pub created_at: String,
    pub updated_at: String,
}

/// The event that `row` holds when it is read at `now`.
pub open spec fn loaded_event(row: CalendarEventRow, now: Timestamp) -> CalendarEventView {
    CalendarEventView {
        id: row.id@,
        title: row.title@,
        description: row.description@,
        start_datetime: row.start_datetime@,
        end_datetime: row.end_datetime.deep_view(),
        all_day: row.all_day != 0,
        color: row.color.deep_view(),
        recurrence_rule: row.recurrence_rule.deep_view(),
        reminder_minutes: row.reminder_minutes,
        created_at: column_instant(row.created_at@, now),
        updated_at: column_instant(row.updated_at@, now),
    }
}

/// Whether `row` is the row of `event`.
pub open spec fn row_holds_event(row: CalendarEventRow, event: CalendarEventView) -> bool {
    &&& row.id@ == event.id
    &&& row.title@ == event.title
    &&& row.description@ == event.description
    &&& row.start_datetime@ == event.start_datetime
    &&& row.end_datetime.deep_view() == event.end_datetime
    &&& row.all_day == flag_column(event.all_day)
    &&& row.color.deep_view() == event.color
    &&& row.recurrence_rule.deep_view() == event.recurrence_rule
    &&& row.reminder_minutes == event.reminder_minutes
    &&& Some(row.created_at@) == rfc3339_text(event.created_at)
    &&& Some(row.updated_at@) == rfc3339_text(event.updated_at)
}

/// Reads a calendar event from its row.
pub fn event_from_row(row: CalendarEventRow, now: Timestamp) -> (event: CalendarEvent)
    ensures
        event@ == loaded_event(row, now),
{
    let created_at = instant_from_column(row.created_at.as_str(), now);
    let updated_at = instant_from_column(row.updated_at.as_str(), now);
    CalendarEvent {
        id: row.id,
        title: row.title,
        description: row.description,
        start_datetime: row.start_datetime,
        end_datetime: row.end_datetime,
        all_day: row.all_day != 0,
        color: row.color,
        recurrence_rule: row.recurrence_rule,
        reminder_minutes: row.reminder_minutes,
        created_at,
        updated_at,
    }
}

/// Writes a calendar event as its row.
pub fn event_to_row(event: &CalendarEvent) -> (row: Result<CalendarEventRow, StorageError>)
    ensures
        row is Ok <==> rfc3339_text(event@.created_at) is Some && rfc3339_text(
            event@.updated_at,
        ) is Some,
        row matches Ok(written) ==> row_holds_event(written, event@),
{
    let created_at = match write_rfc3339(&event.created_at) {
        Some(text) => text,
        None => { return Err(StorageError::TimeOutOfRange); },
    };
    let updated_at = match write_rfc3339(&event.updated_at) {
        Some(text) => text,
        None => { return Err(StorageError::TimeOutOfRange); },
    };
    Ok(
        CalendarEventRow {
            id: event.id.clone(),
            title: event.title.clone(),
            description: event.description.clone(),
            start_datetime: event.start_datetime.clone(),
            end_datetime: event.end_datetime.clone(),
            all_day: if event.all_day {
                1
            } else {
                0
            },
            color: event.color.clone(),
            recurrence_rule: event.recurrence_rule.clone(),
            reminder_minutes: event.reminder_minutes,
            created_at,
            updated_at,
        },
    )
}

/// A book as its row. The columns that hold the notes and the sessions are
/// given as the notes and sessions themselves.
#[derive(Debug)]
pub struct ReadingBookRow {
    pub id: String,
    pub title: String,
    pub author: Option<String>,
    pub isbn: Option<String>,
    pub publisher: Option<String>,
    pub published_year: Option<i32>,
    pub cover_image_url: Option<String>,
    pub genres: String,
    pub status: String,
    pub start_date: Option<String>,
    pub finish_date: Option<String>,
    pub progress_percent: Option<i32>,
    pub total_pages: Option<i32>,
    pub current_page: Option<i32>,
    pub rating: Option<i32>,
    pub summary: String,
    pub notes: Vec<ReadingNote>,
    pub reading_sessions: Vec<ReadingSession>,
    pub tags: String,
    pub created_at: String,
    pub updated_at: String,
}

/// The page count that an optional column holds.
pub open spec fn column_count(stored: Option<i32>) -> Option<u32> {
    match stored {
        Some(stored) => Some(loaded_count(stored)),
        None => None,
    }
}

/// The percentage or rating that an optional column holds.
pub open spec fn column_byte(stored: Option<i32>) -> Option<u8> {
    match stored {
        Some(stored) => Some(loaded_byte(stored)),
        None => None,
    }
}

/// The column for an optional page count.
pub open spec fn count_column(count: Option<u32>) -> Option<i32> {
    match count {
        Some(count) => Some(stored_count(count)),
        None => None,
    }
}

/// The column for an optional percentage or rating.
pub open spec fn byte_column(byte: Option<u8>) -> Option<i32> {
    match byte {
        Some(byte) => Some(byte as i32),
        None => None,
    }
}

/// The book that `row` holds when it is read at `now`. A start or finish
/// date that cannot be read is taken to be missing; the time of creation or
/// of the last change, to be `now`.
pub open spec fn loaded_book(row: ReadingBookRow, now: Timestamp) -> ReadingBookView {
    ReadingBookView {
        id: row.id@,
        title: row.title@,
        author: row.author.deep_view(),
        isbn: row.isbn.deep_view(),
        publisher: row.publisher.deep_view(),
        published_year: row.published_year,
        cover_image_url: row.cover_image_url.deep_view(),
        genres: column_texts(row.genres@),
        status: status_from_text(row.status@),
        start_date: column_optional_instant(row.start_date.deep_view()),
        finish_date: column_optional_instant(row.finish_date.deep_view()),
        progress_percent: column_byte(row.progress_percent),
        total_pages: column_count(row.total_pages),
        current_page: column_count(row.current_page),
        rating: column_byte(row.rating),
        summary: row.summary@,
        notes: row.notes.deep_view(),
        reading_sessions: row.reading_sessions.deep_view(),
        tags: column_texts(row.tags@),
        created_at: column_instant(row.created_at@, now),
        updated_at: column_instant(row.updated_at@, now),
    }
}

/// The column for an optional instant, where it can be written.
pub open spec fn instant_column(instant: Option<Timestamp>) -> Option<Option<Seq<char>>> {
    match instant {
        Some(instant) => match rfc3339_text(instant) {
            Some(text) => Some(Some(text)),
            None => None,
        },
        None => Some(None),
    }
}

/// Whether `row` is the row of `book`.
pub open spec fn row_holds_book(row: ReadingBookRow, book: ReadingBookView) -> bool {
    &&& row.id@ == book.id
    &&& row.title@ == book.title
    &&& row.author.deep_view() == book.author
    &&& row.isbn.deep_view() == book.isbn
    &&& row.publisher.deep_view() == book.publisher
    &&& row.published_year == book.published_year
    &&& row.cover_image_url.deep_view() == book.cover_image_url
    &&& row.genres@ == texts_column(book.genres)
    &&& row.status@ == status_text(book.status)
    &&& Some(row.start_date.deep_view()) == instant_column(book.start_date)
    &&& Some(row.finish_date.deep_view()) == instant_column(book.finish_date)
    &&& row.progress_percent == byte_column(book.progress_percent)
    &&& row.total_pages == count_column(book.total_pages)
    &&& row.current_page == count_column(book.current_page)
    &&& row.rating == byte_column(book.rating)
    &&& row.summary@ == book.summary
    &&& row.notes.deep_view() == book.notes
    &&& row.reading_sessions.deep_view() == book.reading_sessions
    &&& row.tags@ == texts_column(book.tags)
    &&& Some(row.created_at@) == rfc3339_text(book.created_at)
    &&& Some(row.updated_at@) == rfc3339_text(book.updated_at)
}

/// Whether every instant of `book` can be written.
pub open spec fn book_can_be_stored(book: ReadingBookView) -> bool {
    &&& instant_column(book.start_date) is Some
    &&& instant_column(book.finish_date) is Some
    &&& rfc3339_text(book.created_at) is Some
    &&& rfc3339_text(book.updated_at) is Some
}

fn count_column_of(count: Option<u32>) -> (stored: Option<i32>)
    ensures
        stored == count_column(count),
{
    match count {
        Some(count) => Some(count_to_column(count)),
        None => None,
    }
}

fn column_count_of(stored: Option<i32>) -> (count: Option<u32>)
    ensures
        count == column_count(stored),
{
    match stored {
        Some(stored) => Some(count_from_column(stored)),
        None => None,
    }
}

fn byte_column_of(byte: Option<u8>) -> (stored: Option<i32>)
    ensures
        stored == byte_column(byte),
{
    match byte {
        Some(byte) => Some(byte as i32),
        None => None,
    }
}

fn column_byte_of(stored: Option<i32>) -> (byte: Option<u8>)
    ensures
        byte == column_byte(stored),
{
    match stored {
        Some(stored) => Some(byte_from_column(stored)),
        None => None,
    }
}

fn instant_column_of(instant: &Option<Timestamp>) -> (column: Option<Option<String>>)
    ensures
        column.deep_view() == instant_column(*instant),
{
    match instant {
        Some(instant) => match write_rfc3339(instant) {
            Some(text) => Some(Some(text)),
            None => None,
        },
        None => Some(None),
    }
}

/// Reads a book from its row.
pub fn book_from_row(row: ReadingBookRow, now: Timestamp) -> (book: ReadingBook)
    ensures
        book@ == loaded_book(row, now),
{
    let genres = texts_from_column(row.genres.as_str());
    let tags = texts_from_column(row.tags.as_str());
    let status = ReadingStatus::from_text(row.status.as_str());
    let start_date = optional_instant_from_column(&row.start_date);
    let finish_date = optional_instant_from_column(&row.finish_date);
    let created_at = instant_from_column(row.created_at.as_str(), now);
    let updated_at = instant_from_column(row.updated_at.as_str(), now);
    ReadingBook {
        id: row.id,
        title: row.title,
        author: row.author,
        isbn: row.isbn,
        publisher: row.publisher,
        published_year: row.published_year,
        cover_image_url: row.cover_image_url,
        genres,
        status,
        start_date,
        finish_date,
        progress_percent: column_byte_of(row.progress_percent),
        total_pages: column_count_of(row.total_pages),
        current_page: column_count_of(row.current_page),
        rating: column_byte_of(row.rating),
        summary: row.summary,
        notes: row.notes,
        reading_sessions: row.reading_sessions,
        tags,
        created_at,
        updated_at,
    }
}

/// Writes a book as its row.
pub fn book_to_row(book: &ReadingBook) -> (row: Result<ReadingBookRow, StorageError>)
    ensures
        row is Ok <==> book_can_be_stored(book@),
        row matches Ok(written) ==> row_holds_book(written, book@),
{
    let start_date = match instant_column_of(&book.start_date) {
        Some(column) => column,
        None => { return Err(StorageError::TimeOutOfRange); },
    };
    let finish_date = match instant_column_of(&book.finish_date) {
        Some(column) => column,
        None => { return Err(StorageError::TimeOutOfRange); },
    };
    let created_at = match write_rfc3339(&book.created_at) {
        Some(text) => text,
        None => { return Err(StorageError::TimeOutOfRange); },
    };
    let updated_at = match write_rfc3339(&book.updated_at) {
        Some(text) => text,
        None => { return Err(StorageError::TimeOutOfRange); },
    };
    let notes = book.notes.clone();
    assert(notes.deep_view() =~= book.notes.deep_view());
    let reading_sessions = book.reading_sessions.clone();
    assert(reading_sessions.deep_view() =~= book.reading_sessions.deep_view());
    Ok(
        ReadingBookRow {
            id: book.id.clone(),
            title: book.title.clone(),
            author: book.author.clone(),
            isbn: book.isbn.clone(),
            publisher: book.publisher.clone(),
            published_year: book.published_year,
            cover_image_url: book.cover_image_url.clone(),
            genres: texts_to_column(&book.genres),
            status: book.status.as_str().to_owned(),
            start_date,
            finish_date,
            progress_percent: byte_column_of(book.progress_percent),
            total_pages: count_column_of(book.total_pages),
            current_page: count_column_of(book.current_page),
            rating: byte_column_of(book.rating),
            summary: book.summary.clone(),
            notes,
            reading_sessions,
            tags: texts_to_column(&book.tags),
            created_at,
            updated_at,
        },
    )
}

/// Whether `texts` are read back from their column as they were written.
pub open spec fn texts_survive(texts: Seq<Seq<char>>) -> bool {
    column_texts(texts_column(texts)) == texts
}

/// Whether `instant` is read back from its column as it was written.
pub open spec fn instant_survives(instant: Timestamp) -> bool {
    rfc3339_text(instant) matches Some(text) && rfc3339_instant(text) == Some(instant)
}

/// Whether an optional instant is read back from its column as it was
/// written.
pub open spec fn optional_instant_survives(instant: Option<Timestamp>) -> bool {
    instant matches Some(at) ==> instant_survives(at)
}

/// A memo that is written as a row and read back is the memo it was,
/// whether or not it has a folder and tags, provided that its tags and its
/// two instants are read back as they were written.
pub proof fn lemma_memo_round_trip(memo: MemoView, row: MemoRow, now: Timestamp)
    requires
        row_holds_memo(row, memo),
        texts_survive(memo.tags),
        instant_survives(memo.created_at),
        instant_survives(memo.updated_at),
    ensures
        loaded_memo(row, now) == memo,
{
}

/// A calendar event that is written as a row and read back is the event it
/// was, whatever of its optional fields are set, provided that its two
/// instants are read back as they were written.
pub proof fn lemma_event_round_trip(event: CalendarEventView, row: CalendarEventRow, now: Timestamp)
    requires
        row_holds_event(row, event),
        instant_survives(event.created_at),
        instant_survives(event.updated_at),
    ensures
        loaded_event(row, now) == event,
{
}

/// A book that is written as a row and read back is the book it was, with
/// its notes and sessions, whatever of its optional fields are set, provided
/// that its genres, its tags and its instants are read back as they were
/// written.
pub proof fn lemma_book_round_trip(book: ReadingBookView, row: ReadingBookRow, now: Timestamp)
    requires
        row_holds_book(row, book),
        texts_survive(book.genres),
        texts_survive(book.tags),
        optional_instant_survives(book.start_date),
        optional_instant_survives(book.finish_date),
        instant_survives(book.created_at),
        instant_survives(book.updated_at),
    ensures
        loaded_book(row, now) == book,
{
    crate::reading_memo::lemma_status_round_trip(book.status);
    let read = loaded_book(row, now);
    assert(read.progress_percent == book.progress_percent);
    assert(read.total_pages == book.total_pages);
    assert(read.current_page == book.current_page);
    assert(read.rating == book.rating);
    assert(read.start_date == book.start_date);
    assert(read.finish_date == book.finish_date);
}

} // verus!
