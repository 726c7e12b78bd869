use noruno::clock::Timestamp;
use noruno::commands::calendar_commands::{
    create_calendar_event, delete_calendar_event, get_calendar_events, update_calendar_event,
};
use noruno::commands::reading_commands::{
    add_reading_note, add_reading_session, create_reading_book, delete_reading_book,
    delete_reading_note, delete_reading_session, get_reading_books, update_reading_book,
    update_reading_note, update_reading_session,
};
use noruno::reading_memo::{
    percent_of_pages, ReadingBook, ReadingNote, ReadingSession, ReadingStatus,
};
use noruno::settings::MailSettings;
use noruno::state::AppState;

fn empty_state() -> AppState {
    AppState::new(
        Vec::new(),
        Vec::new(),
        MailSettings::default(),
        Vec::new(),
        Vec::new(),
        Vec::new(),
        Vec::new(),
    )
}

fn then() -> Timestamp {
    Timestamp { secs: 1_700_000_000, nanos: 0 }
}

fn book(id: &str, title: &str) -> ReadingBook {
    ReadingBook::created(id.to_string(), then(), title.to_string())
}

fn edit_pages(book: &mut ReadingBook, total: Option<u32>, current: Option<u32>) {
    book.revise(
        then(),
        book.title.clone(),
        None,
        None,
        None,
        None,
        None,
        Vec::new(),
        ReadingStatus::Reading,
        None,
        None,
        total,
        current,
        None,
        String::new(),
        Vec::new(),
    );
}

#[test]
fn new_book_is_unread() {
    let b = ReadingBook::new("Dune".to_string());
    assert_eq!(b.id.len(), 36);
    assert_eq!(b.title, "Dune");
    assert_eq!(b.author, None);
    assert_eq!(b.status, ReadingStatus::WantToRead);
    assert_eq!(b.progress_percent, None);
    assert_eq!(b.total_pages, None);
    assert_eq!(b.rating, None);
    assert_eq!(b.summary, "");
    assert!(b.genres.is_empty() && b.notes.is_empty() && b.reading_sessions.is_empty() && b.tags.is_empty());
    assert_eq!(b.created_at, b.updated_at);
    assert!(b.created_at.secs > 1_600_000_000);
}

#[test]
fn percent_of_pages_rounds_down() {
    assert_eq!(percent_of_pages(0, 100), 0);
    assert_eq!(percent_of_pages(50, 100), 50);
    assert_eq!(percent_of_pages(100, 100), 100);
    assert_eq!(percent_of_pages(1, 3), 33);
    assert_eq!(percent_of_pages(2, 3), 66);
    assert_eq!(percent_of_pages(199, 200), 99);
    assert_eq!(percent_of_pages(29, 100), 29);
    assert_eq!(percent_of_pages(1, 1000), 0);
}

#[test]
fn percent_of_pages_beyond_the_last_page() {
    assert_eq!(percent_of_pages(150, 100), 150);
    assert_eq!(percent_of_pages(255, 100), 255);
    assert_eq!(percent_of_pages(256, 100), 255);
    assert_eq!(percent_of_pages(u32::MAX, 1), 255);
    assert_eq!(percent_of_pages(u32::MAX, u32::MAX), 100);
}

#[test]
fn progress_is_computed_when_both_counts_are_known() {
    let mut b = book("b", "Dune");
    edit_pages(&mut b, Some(400), Some(100));
    assert_eq!(b.progress_percent, Some(25));
    edit_pages(&mut b, Some(400), Some(399));
    assert_eq!(b.progress_percent, Some(99));
}

#[test]
fn progress_stays_when_a_count_is_missing_or_the_total_is_zero() {
    let mut b = book("b", "Dune");
    edit_pages(&mut b, Some(0), Some(10));
    assert_eq!(b.progress_percent, None);
    edit_pages(&mut b, Some(200), Some(50));
    assert_eq!(b.progress_percent, Some(25));
    edit_pages(&mut b, None, Some(100));
    assert_eq!(b.progress_percent, Some(25));
    edit_pages(&mut b, Some(200), None);
    assert_eq!(b.progress_percent, Some(25));
    edit_pages(&mut b, Some(0), Some(100));
    assert_eq!(b.progress_percent, Some(25));
    assert_eq!(b.total_pages, Some(0));
    assert_eq!(b.current_page, Some(100));
}

#[test]
fn book_update_overwrites_and_keeps_what_it_owns() {
    let mut b = book("b", "Dune");
    b.notes.push(ReadingNote::created("n".to_string(), then(), None, None, "c".to_string()));
    b.update(
        "Dune II".to_string(),
        Some("Herbert".to_string()),
        Some("123".to_string()),
        Some("Ace".to_string()),
        Some(1965),
        Some("http://cover".to_string()),
        vec!["sf".to_string()],
        ReadingStatus::Finished,
        Some(Timestamp { secs: 10, nanos: 0 }),
        Some(Timestamp { secs: 20, nanos: 0 }),
        Some(600),
        Some(600),
        Some(90),
        "Sand".to_string(),
        vec!["classic".to_string()],
    );
    assert_eq!(b.id, "b");
    assert_eq!(b.title, "Dune II");
    assert_eq!(b.author, Some("Herbert".to_string()));
    assert_eq!(b.isbn, Some("123".to_string()));
    assert_eq!(b.publisher, Some("Ace".to_string()));
    assert_eq!(b.published_year, Some(1965));
    assert_eq!(b.cover_image_url, Some("http://cover".to_string()));
    assert_eq!(b.genres, vec!["sf".to_string()]);
    assert_eq!(b.status, ReadingStatus::Finished);
    assert_eq!(b.start_date, Some(Timestamp { secs: 10, nanos: 0 }));
    assert_eq!(b.finish_date, Some(Timestamp { secs: 20, nanos: 0 }));
    assert_eq!(b.progress_percent, Some(100));
    assert_eq!(b.rating, Some(90));
    assert_eq!(b.summary, "Sand");
    assert_eq!(b.tags, vec!["classic".to_string()]);
    assert_eq!(b.notes.len(), 1);
    assert_eq!(b.created_at, then());
    assert!(b.updated_at.secs > then().secs);
}

#[test]
fn books_are_created_edited_and_deleted() {
    let mut state = empty_state();
    create_reading_book(&mut state, "One".to_string());
    let books = create_reading_book(&mut state, "Two".to_string());
    assert_eq!(books.len(), 2);
    assert_eq!(books[1].title, "Two");
    let id = books[1].id.clone();
    let books = update_reading_book(
        &mut state,
        id.clone(),
        "Two!".to_string(),
        None,
        None,
        None,
        None,
        None,
        Vec::new(),
        ReadingStatus::Reading,
        None,
        None,
        Some(10),
        Some(5),
        None,
        String::new(),
        Vec::new(),
    );
    assert_eq!(books[0].title, "One");
    assert_eq!(books[1].title, "Two!");
    assert_eq!(books[1].status, ReadingStatus::Reading);
    assert_eq!(books[1].progress_percent, Some(50));
    let books = update_reading_book(
        &mut state,
        "missing".to_string(),
        "X".to_string(),
        None,
        None,
        None,
        None,
        None,
        Vec::new(),
        ReadingStatus::Paused,
        None,
        None,
        None,
        None,
        None,
        String::new(),
        Vec::new(),
    );
    assert_eq!(books[0].title, "One");
    assert_eq!(books[1].title, "Two!");
    let books = delete_reading_book(&mut state, id);
    assert_eq!(books.len(), 1);
    assert_eq!(books[0].title, "One");
    assert_eq!(get_reading_books(&state).len(), 1);
}

#[test]
fn notes_are_added_edited_and_deleted() {
    let mut state = empty_state();
    state.reading_books = vec![book("a", "A"), book("b", "B")];
    add_reading_note(&mut state, "b".to_string(), Some(12), Some("quote".to_string()), "first".to_string());
    let books = add_reading_note(&mut state, "b".to_string(), None, None, "second".to_string());
    assert!(books[0].notes.is_empty());
    assert_eq!(books[0].updated_at, then());
    assert_eq!(books[1].notes.len(), 2);
    assert_eq!(books[1].notes[0].page_number, Some(12));
    assert_eq!(books[1].notes[0].quote, Some("quote".to_string()));
    assert_eq!(books[1].notes[0].comment, "first");
    assert_eq!(books[1].notes[0].id.len(), 36);
    assert_eq!(books[1].notes[1].comment, "second");
    assert!(books[1].updated_at.secs > then().secs);

    let note = books[1].notes[0].id.clone();
    let books = update_reading_note(
        &mut state,
        "b".to_string(),
        note.clone(),
        Some(13),
        None,
        "changed".to_string(),
    );
    assert_eq!(books[1].notes[0].id, note);
    assert_eq!(books[1].notes[0].page_number, Some(13));
    assert_eq!(books[1].notes[0].quote, None);
    assert_eq!(books[1].notes[0].comment, "changed");
    assert_eq!(books[1].notes[1].comment, "second");

    let books = update_reading_note(&mut state, "a".to_string(), note.clone(), None, None, "x".to_string());
    assert!(books[0].notes.is_empty());
    assert_eq!(books[0].updated_at, then());
    assert_eq!(books[1].notes[0].comment, "changed");

    let books = delete_reading_note(&mut state, "b".to_string(), note);
    assert_eq!(books[1].notes.len(), 1);
    assert_eq!(books[1].notes[0].comment, "second");
    let books = add_reading_note(&mut state, "zz".to_string(), None, None, "lost".to_string());
    assert_eq!(books[0].notes.len() + books[1].notes.len(), 1);
}

#[test]
fn a_note_that_is_not_there_leaves_the_book_as_it_was() {
    let mut state = empty_state();
    state.reading_books = vec![book("a", "A")];
    let books =
        update_reading_note(&mut state, "a".to_string(), "none".to_string(), None, None, "x".to_string());
    assert_eq!(books[0].updated_at, then());
    let books = update_reading_session(
        &mut state,
        "a".to_string(),
        "none".to_string(),
        then(),
        None,
        None,
        1,
        None,
        None,
    );
    assert_eq!(books[0].updated_at, then());
    assert!(books[0].reading_sessions.is_empty());
}

#[test]
fn sessions_are_added_edited_and_deleted() {
    let mut state = empty_state();
    state.reading_books = vec![book("a", "A")];
    let day = Timestamp { secs: 1_710_000_000, nanos: 0 };
    let books = add_reading_session(
        &mut state,
        "a".to_string(),
        day,
        Some(1),
        Some(30),
        29,
        Some(45),
        Some("evening".to_string()),
    );
    let s = &books[0].reading_sessions[0];
    assert_eq!(s.id.len(), 36);
    assert_eq!(s.session_date, day);
    assert_eq!(s.start_page, Some(1));
    assert_eq!(s.end_page, Some(30));
    assert_eq!(s.pages_read, 29);
    assert_eq!(s.duration_minutes, Some(45));
    assert_eq!(s.memo, Some("evening".to_string()));
    let id = s.id.clone();

    let next = Timestamp { secs: 1_710_086_400, nanos: 0 };
    let books = update_reading_session(&mut state, "a".to_string(), id.clone(), next, None, None, 10, None, None);
    let s = &books[0].reading_sessions[0];
    assert_eq!(s.id, id);
    assert_eq!(s.session_date, next);
    assert_eq!(s.start_page, None);
    assert_eq!(s.pages_read, 10);
    assert_eq!(s.memo, None);

    let books = delete_reading_session(&mut state, "a".to_string(), "other".to_string());
    assert_eq!(books[0].reading_sessions.len(), 1);
    let books = delete_reading_session(&mut state, "a".to_string(), id);
    assert!(books[0].reading_sessions.is_empty());
}

#[test]
fn new_session_and_note() {
    let s = ReadingSession::new(then(), None, Some(5), 5, None, None);
    assert_eq!(s.id.len(), 36);
    assert_eq!(s.end_page, Some(5));
    assert_eq!(s.pages_read, 5);
    let n = ReadingNote::new(Some(3), None, "hm".to_string());
    assert_eq!(n.id.len(), 36);
    assert_eq!(n.page_number, Some(3));
    assert_eq!(n.comment, "hm");
    assert!(n.created_at.secs > 1_600_000_000);
}

#[test]
fn events_are_created_edited_and_deleted() {
    let mut state = empty_state();
    let events = create_calendar_event(
        &mut state,
        "Test Event".to_string(),
        "Desc".to_string(),
        "2023-01-01 10:00".to_string(),
        Some("2023-01-01 11:00".to_string()),
        false,
        Some("#000000".to_string()),
        None,
        Some(10),
    );
    assert_eq!(events.len(), 1);
    let e = &events[0];
    assert_eq!(e.id.len(), 36);
    assert_eq!(e.title, "Test Event");
    assert_eq!(e.description, "Desc");
    assert_eq!(e.start_datetime, "2023-01-01 10:00");
    assert_eq!(e.end_datetime, Some("2023-01-01 11:00".to_string()));
    assert!(!e.all_day);
    assert_eq!(e.color, Some("#000000".to_string()));
    assert_eq!(e.recurrence_rule, None);
    assert_eq!(e.reminder_minutes, Some(10));
    assert_eq!(e.created_at, e.updated_at);
    let id = e.id.clone();
    let created = e.created_at;

    let events = update_calendar_event(
        &mut state,
        id.clone(),
        "Updated Event".to_string(),
        String::new(),
        "2023-02-01".to_string(),
        None,
        true,
        None,
        Some("FREQ=DAILY".to_string()),
        None,
    );
    let e = &events[0];
    assert_eq!(e.id, id);
    assert_eq!(e.title, "Updated Event");
    assert_eq!(e.description, "");
    assert_eq!(e.start_datetime, "2023-02-01");
    assert_eq!(e.end_datetime, None);
    assert!(e.all_day);
    assert_eq!(e.color, None);
    assert_eq!(e.recurrence_rule, Some("FREQ=DAILY".to_string()));
    assert_eq!(e.reminder_minutes, None);
    assert_eq!(e.created_at, created);

    let events = update_calendar_event(
        &mut state,
        "missing".to_string(),
        "X".to_string(),
        String::new(),
        String::new(),
        None,
        false,
        None,
        None,
        None,
    );
    assert_eq!(events[0].title, "Updated Event");
    assert_eq!(get_calendar_events(&state).len(), 1);
    assert_eq!(delete_calendar_event(&mut state, "missing".to_string()).len(), 1);
    assert!(delete_calendar_event(&mut state, id).is_empty());
}
