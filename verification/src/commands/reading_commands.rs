//! Commands on the reading log.

use crate::clock::{current_time, Timestamp};
use crate::collection::{find_by_id, index_with_id, remove_by_id, without_id};
use crate::ident::UUID_TEXT_LEN;
use crate::reading_memo::{
    created_book, revised_book, ReadingBook, ReadingBookView, ReadingNote, ReadingNoteView,
    ReadingSession, ReadingSessionView, ReadingStatus,
};
use crate::state::{AppState, AppStateView};
use vstd::prelude::*;

verus! {

/// A copy of `books`.
pub fn snapshot_books(books: &Vec<ReadingBook>) -> (snapshot: Vec<ReadingBook>)
    ensures
        snapshot.deep_view() == books.deep_view(),
{
    let snapshot = books.clone();
    assert(snapshot.deep_view() =~= books.deep_view());
    snapshot
}

/// All books, in their order.
pub fn get_reading_books(state: &AppState) -> (snapshot: Vec<ReadingBook>)
    ensures
        snapshot.deep_view() == state@.reading_books,
{
    snapshot_books(&state.reading_books)
}

/// Appends a new book with a random identifier, created now.
pub fn create_reading_book(state: &mut AppState, title: String) -> (snapshot: Vec<ReadingBook>)
    ensures
        final(state)@.reading_books.len() == old(state)@.reading_books.len() + 1,
        final(state)@ == (AppStateView {
            reading_books: old(state)@.reading_books.push(final(state)@.reading_books.last()),
            ..old(state)@
        }),
        final(state)@.reading_books.last().id.len() == UUID_TEXT_LEN,
        final(state)@.reading_books.last() == created_book(
            final(state)@.reading_books.last().id,
            final(state)@.reading_books.last().created_at,
            title@,
        ),
        snapshot.deep_view() == final(state)@.reading_books,
{
    let book = ReadingBook::new(title);
    state.reading_books.push(book);
    assert(state.reading_books.deep_view() =~= old(state)@.reading_books.push(book@));
    snapshot_books(&state.reading_books)
}

/// Overwrites the first book with the identifier `id`, stamps it with the
/// current time and brings its progress up to date. Where there is none,
/// nothing changes.
pub fn update_reading_book(
    state: &mut AppState,
    id: String,
    title: String,
    author: Option<String>,
    isbn: Option<String>,
    publisher: Option<String>,
    published_year: Option<i32>,
    cover_image_url: Option<String>,
    genres: Vec<String>,
    status: ReadingStatus,
    start_date: Option<Timestamp>,
    finish_date: Option<Timestamp>,
    total_pages: Option<u32>,
    current_page: Option<u32>,
    rating: Option<u8>,
    summary: String,
    tags: Vec<String>,
) -> (snapshot: Vec<ReadingBook>)
    ensures
        final(state)@ == (AppStateView {
            reading_books: match index_with_id(old(state)@.reading_books, id@) {
                Some(i) => old(state)@.reading_books.update(
                    i,
                    revised_book(
                        old(state)@.reading_books[i],
                        final(state)@.reading_books[i].updated_at,
                        title@,
                        author.deep_view(),
                        isbn.deep_view(),
                        publisher.deep_view(),
                        published_year,
                        cover_image_url.deep_view(),
                        genres.deep_view(),
                        status,
                        start_date,
                        finish_date,
                        total_pages,
                        current_page,
                        rating,
                        summary@,
                        tags.deep_view(),
                    ),
                ),
                None => old(state)@.reading_books,
            },
            ..old(state)@
        }),
        snapshot.deep_view() == final(state)@.reading_books,
{
    if let Some(i) = find_by_id(&state.reading_books, &id) {
        state.reading_books[i].update(
            title,
            author,
            isbn,
            publisher,
            published_year,
            cover_image_url,
            genres,
            status,
            start_date,
            finish_date,
            total_pages,
            current_page,
            rating,
            summary,
            tags,
        );
        assert(state.reading_books.deep_view() =~= old(state)@.reading_books.update(
            i as int,
            state.reading_books[i as int]@,
        ));
    }
    snapshot_books(&state.reading_books)
}

/// Removes every book with the identifier `id`, with its notes and sessions.
pub fn delete_reading_book(state: &mut AppState, id: String) -> (snapshot: Vec<ReadingBook>)
    ensures
        final(state)@ == (AppStateView {
            reading_books: without_id(old(state)@.reading_books, id@),
            ..old(state)@
        }),
        snapshot.deep_view() == final(state)@.reading_books,
{
    remove_by_id(&mut state.reading_books, &id);
    snapshot_books(&state.reading_books)
}

/// `book` with `notes` in place of its own, as last changed at `now`.
pub open spec fn with_notes(book: ReadingBookView, notes: Seq<ReadingNoteView>, now: Timestamp) -> ReadingBookView {
    ReadingBookView { notes, updated_at: now, ..book }
}

/// `book` with `sessions` in place of its own, as last changed at `now`.
pub open spec fn with_sessions(
    book: ReadingBookView,
    sessions: Seq<ReadingSessionView>,
    now: Timestamp,
) -> ReadingBookView {
    ReadingBookView { reading_sessions: sessions, updated_at: now, ..book }
}

/// Appends a new note to the first book with the identifier `book_id` and
/// stamps the book with the current time. Where there is no such book,
/// nothing changes.
pub fn add_reading_note(
    state: &mut AppState,
    book_id: String,
    page_number: Option<u32>,
    quote: Option<String>,
    comment: String,
) -> (snapshot: Vec<ReadingBook>)
    ensures
        final(state)@ == (AppStateView {
            reading_books: match index_with_id(old(state)@.reading_books, book_id@) {
                Some(i) => old(state)@.reading_books.update(
                    i,
                    with_notes(
                        old(state)@.reading_books[i],
                        old(state)@.reading_books[i].notes.push(
                            final(state)@.reading_books[i].notes.last(),
                        ),
                        final(state)@.reading_books[i].updated_at,
                    ),
                ),
                None => old(state)@.reading_books,
            },
            ..old(state)@
        }),
        index_with_id(old(state)@.reading_books, book_id@) matches Some(i) ==> {
            let note = final(state)@.reading_books[i].notes.last();
            &&& note.id.len() == UUID_TEXT_LEN
            &&& note.page_number == page_number
            &&& note.quote == quote.deep_view()
            &&& note.comment == comment@
        },
        snapshot.deep_view() == final(state)@.reading_books,
{
    if let Some(i) = find_by_id(&state.reading_books, &book_id) {
        let note = ReadingNote::new(page_number, quote, comment);
        let ghost held = state.reading_books[i as int]@.notes;
        state.reading_books[i].notes.push(note);
        state.reading_books[i].updated_at = current_time();
        assert(state.reading_books[i as int]@.notes =~= held.push(note@));
        assert(state.reading_books.deep_view() =~= old(state)@.reading_books.update(
            i as int,
            state.reading_books[i as int]@,
        ));
    }
    snapshot_books(&state.reading_books)
}

/// `book` after an edit of its first note with the identifier `note_id`:
/// where there is such a note, it is overwritten and the book is stamped
/// with `now`; else the book is as it was.
pub open spec fn with_revised_note(
    book: ReadingBookView,
    note_id: Seq<char>,
    now: Timestamp,
    page_number: Option<u32>,
    quote: Option<Seq<char>>,
    comment: Seq<char>,
) -> ReadingBookView {
    match index_with_id(book.notes, note_id) {
        Some(j) => with_notes(
            book,
            book.notes.update(j, ReadingNoteView { page_number, quote, comment, ..book.notes[j] }),
            now,
        ),
        None => book,
    }
}

/// Overwrites the first note with the identifier `note_id` in the first book
/// with the identifier `book_id`, and stamps the book with the current time.
/// Where either is missing, nothing changes.
pub fn update_reading_note(
    state: &mut AppState,
    book_id: String,
    note_id: String,
    page_number: Option<u32>,
    quote: Option<String>,
    comment: String,
) -> (snapshot: Vec<ReadingBook>)
    ensures
        final(state)@ == (AppStateView {
            reading_books: match index_with_id(old(state)@.reading_books, book_id@) {
                Some(i) => old(state)@.reading_books.update(
                    i,
                    with_revised_note(
                        old(state)@.reading_books[i],
                        note_id@,
                        final(state)@.reading_books[i].updated_at,
                        page_number,
                        quote.deep_view(),
                        comment@,
                    ),
                ),
                None => old(state)@.reading_books,
            },
            ..old(state)@
        }),
        snapshot.deep_view() == final(state)@.reading_books,
{
    if let Some(i) = find_by_id(&state.reading_books, &book_id) {
        if let Some(j) = find_by_id(&state.reading_books[i].notes, &note_id) {
            let ghost held = state.reading_books[i as int]@.notes;
            state.reading_books[i].notes[j].page_number = page_number;
            state.reading_books[i].notes[j].quote = quote;
            state.reading_books[i].notes[j].comment = comment;
            state.reading_books[i].updated_at = current_time();
            assert(state.reading_books[i as int]@.notes =~= held.update(
                j as int,
                ReadingNoteView {
                    page_number,
                    quote: quote.deep_view(),
                    comment: comment@,
                    ..held[j as int]
                },
            ));
        }
        assert(state.reading_books.deep_view() =~= old(state)@.reading_books.update(
            i as int,
            state.reading_books[i as int]@,
        ));
    }
    snapshot_books(&state.reading_books)
}

/// Removes every note with the identifier `note_id` from the first book with
/// the identifier `book_id`, and stamps the book with the current time.
/// Where there is no such book, nothing changes.
pub fn delete_reading_note(state: &mut AppState, book_id: String, note_id: String) -> (snapshot:
    Vec<ReadingBook>)
    ensures
        final(state)@ == (AppStateView {
            reading_books: match index_with_id(old(state)@.reading_books, book_id@) {
                Some(i) => old(state)@.reading_books.update(
                    i,
                    with_notes(
                        old(state)@.reading_books[i],
                        without_id(old(state)@.reading_books[i].notes, note_id@),
                        final(state)@.reading_books[i].updated_at,
                    ),
                ),
                None => old(state)@.reading_books,
            },
            ..old(state)@
        }),
        snapshot.deep_view() == final(state)@.reading_books,
{
    if let Some(i) = find_by_id(&state.reading_books, &book_id) {
        remove_by_id(&mut state.reading_books[i].notes, &note_id);
        state.reading_books[i].updated_at = current_time();
        assert(state.reading_books.deep_view() =~= old(state)@.reading_books.update(
            i as int,
            state.reading_books[i as int]@,
        ));
    }
    snapshot_books(&state.reading_books)
}

/// Appends a new session to the first book with the identifier `book_id`
/// and stamps the book with the current time. Where there is no such book,
/// nothing changes.
pub fn add_reading_session(
    state: &mut AppState,
    book_id: String,
    session_date: Timestamp,
    start_page: Option<u32>,
    end_page: Option<u32>,
    pages_read: u32,
    duration_minutes: Option<u32>,
    memo: Option<String>,
) -> (snapshot: Vec<ReadingBook>)
    ensures
        final(state)@ == (AppStateView {
            reading_books: match index_with_id(old(state)@.reading_books, book_id@) {
                Some(i) => old(state)@.reading_books.update(
                    i,
                    with_sessions(
                        old(state)@.reading_books[i],
                        old(state)@.reading_books[i].reading_sessions.push(
                            ReadingSessionView {
                                id: final(state)@.reading_books[i].reading_sessions.last().id,
                                session_date,
                                start_page,
                                end_page,
                                pages_read,
                                duration_minutes,
                                memo: memo.deep_view(),
                            },
                        ),
                        final(state)@.reading_books[i].updated_at,
                    ),
                ),
                None => old(state)@.reading_books,
            },
            ..old(state)@
        }),
        index_with_id(old(state)@.reading_books, book_id@) matches Some(i) ==> {
            let session = final(state)@.reading_books[i].reading_sessions.last();
            session.id.len() == UUID_TEXT_LEN
        },
        snapshot.deep_view() == final(state)@.reading_books,
{
    if let Some(i) = find_by_id(&state.reading_books, &book_id) {
        let session = ReadingSession::new(
            session_date,
            start_page,
            end_page,
            pages_read,
            duration_minutes,
            memo,
        );
        let ghost held = state.reading_books[i as int]@.reading_sessions;
        state.reading_books[i].reading_sessions.push(session);
        state.reading_books[i].updated_at = current_time();
        assert(state.reading_books[i as int]@.reading_sessions =~= held.push(session@));
        assert(state.reading_books.deep_view() =~= old(state)@.reading_books.update(
            i as int,
            state.reading_books[i as int]@,
        ));
    }
    snapshot_books(&state.reading_books)
}

/// `book` after an edit of its first session with the identifier
/// `session_id`: where there is such a session, it is overwritten and the
/// book is stamped with `now`; else the book is as it was.
pub open spec fn with_revised_session(
    book: ReadingBookView,
    session_id: Seq<char>,
    now: Timestamp,
    session_date: Timestamp,
    start_page: Option<u32>,
    end_page: Option<u32>,
    pages_read: u32,
    duration_minutes: Option<u32>,
    memo: Option<Seq<char>>,
) -> ReadingBookView {
    match index_with_id(book.reading_sessions, session_id) {
        Some(j) => with_sessions(
            book,
            book.reading_sessions.update(
                j,
                ReadingSessionView {
                    session_date,
                    start_page,
                    end_page,
                    pages_read,
                    duration_minutes,
                    memo,
                    ..book.reading_sessions[j]
                },
            ),
            now,
        ),
        None => book,
    }
}

/// Overwrites the first session with the identifier `session_id` in the
/// first book with the identifier `book_id`, and stamps the book with the
/// current time. Where either is missing, nothing changes.
pub fn update_reading_session(
    state: &mut AppState,
    book_id: String,
    session_id: String,
    session_date: Timestamp,
    start_page: Option<u32>,
    end_page: Option<u32>,
    pages_read: u32,
    duration_minutes: Option<u32>,
    memo: Option<String>,
) -> (snapshot: Vec<ReadingBook>)
    ensures
        final(state)@ == (AppStateView {
            reading_books: match index_with_id(old(state)@.reading_books, book_id@) {
                Some(i) => old(state)@.reading_books.update(
                    i,
                    with_revised_session(
                        old(state)@.reading_books[i],
                        session_id@,
                        final(state)@.reading_books[i].updated_at,
                        session_date,
                        start_page,
                        end_page,
                        pages_read,
                        duration_minutes,
                        memo.deep_view(),
                    ),
                ),
                None => old(state)@.reading_books,
            },
            ..old(state)@
        }),
        snapshot.deep_view() == final(state)@.reading_books,
{
    if let Some(i) = find_by_id(&state.reading_books, &book_id) {
        if let Some(j) = find_by_id(&state.reading_books[i].reading_sessions, &session_id) {
            let ghost held = state.reading_books[i as int]@.reading_sessions;
            state.reading_books[i].reading_sessions[j].session_date = session_date;
            state.reading_books[i].reading_sessions[j].start_page = start_page;
            state.reading_books[i].reading_sessions[j].end_page = end_page;
            state.reading_books[i].reading_sessions[j].pages_read = pages_read;
            state.reading_books[i].reading_sessions[j].duration_minutes = duration_minutes;
            state.reading_books[i].reading_sessions[j].memo = memo;
            state.reading_books[i].updated_at = current_time();
            assert(state.reading_books[i as int]@.reading_sessions =~= held.update(
                j as int,
                ReadingSessionView {
                    session_date,
                    start_page,
                    end_page,
                    pages_read,
                    duration_minutes,
                    memo: memo.deep_view(),
                    ..held[j as int]
                },
            ));
        }
        assert(state.reading_books.deep_view() =~= old(state)@.reading_books.update(
            i as int,
            state.reading_books[i as int]@,
        ));
    }
    snapshot_books(&state.reading_books)
}

/// Removes every session with the identifier `session_id` from the first
/// book with the identifier `book_id`, and stamps the book with the current
/// time. Where there is no such book, nothing changes.
pub fn delete_reading_session(
    state: &mut AppState,
    book_id: String,
    session_id: String,
) -> (snapshot: Vec<ReadingBook>)
    ensures
        final(state)@ == (AppStateView {
            reading_books: match index_with_id(old(state)@.reading_books, book_id@) {
                Some(i) => old(state)@.reading_books.update(
                    i,
                    with_sessions(
                        old(state)@.reading_books[i],
                        without_id(old(state)@.reading_books[i].reading_sessions, session_id@),
                        final(state)@.reading_books[i].updated_at,
                    ),
                ),
                None => old(state)@.reading_books,
            },
            ..old(state)@
        }),
        snapshot.deep_view() == final(state)@.reading_books,
{
    if let Some(i) = find_by_id(&state.reading_books, &book_id) {
        remove_by_id(&mut state.reading_books[i].reading_sessions, &session_id);
        state.reading_books[i].updated_at = current_time();
        assert(state.reading_books.deep_view() =~= old(state)@.reading_books.update(
            i as int,
            state.reading_books[i as int]@,
        ));
    }
    snapshot_books(&state.reading_books)
}

} // verus!
