//! The reading log: books, with the notes and reading sessions they own.

use crate::clock::{current_time, Timestamp};
use crate::ident::{fresh_id, UUID_TEXT_LEN};
use crate::collection::{Entity, Identified};
use vstd::prelude::*;

verus! {

/// Where a book stands in the reader's plans.
#[derive(Clone, Copy, Debug, PartialEq, Eq, Structural)]
pub enum ReadingStatus {
    WantToRead,
    Reading,
    Finished,
    Paused,
}

/// What a [`ReadingNote`] holds, as mathematical values.
pub struct ReadingNoteView {
    pub id: Seq<char>,
    pub page_number: Option<u32>,
    pub quote: Option<Seq<char>>,
    pub comment: Seq<char>,
    pub created_at: Timestamp,
}

/// A remark on a book, optionally with the page and the passage it is about.
#[derive(Debug)]
pub struct ReadingNote {
    pub id: String,
    pub page_number: Option<u32>,
    pub quote: Option<String>,
    pub comment: String,
    pub created_at: Timestamp,
}

impl View for ReadingNote {
    type V = ReadingNoteView;

    open spec fn view(&self) -> ReadingNoteView {
        ReadingNoteView {
            id: self.id@,
            page_number: self.page_number,
            quote: self.quote.deep_view(),
            comment: self.comment@,
            created_at: self.created_at,
        }
    }
}

impl DeepView for ReadingNote {
    type V = ReadingNoteView;

    open spec fn deep_view(&self) -> ReadingNoteView {
        self@
    }
}

impl Clone for ReadingNote {
    fn clone(&self) -> (copy: Self)
        ensures
            copy@ == self@,
    {
        ReadingNote {
            id: self.id.clone(),
            page_number: self.page_number,
            quote: self.quote.clone(),
            comment: self.comment.clone(),
            created_at: self.created_at,
        }
    }
}

impl ReadingNote {
    /// The note that comes into being at `now` under the identifier `id`.
    pub fn created(
        id: String,
        now: Timestamp,
        page_number: Option<u32>,
        quote: Option<String>,
        comment: String,
    ) -> (note: Self)
        ensures
            note@ == (ReadingNoteView {
                id: id@,
                page_number,
                quote: quote.deep_view(),
                comment: comment@,
                created_at: now,
            }),
    {
        Self { id, page_number, quote, comment, created_at: now }
    }

    /// A new note with a random identifier, created now.
    pub fn new(page_number: Option<u32>, quote: Option<String>, comment: String) -> (note: Self)
        ensures
            note@.id.len() == UUID_TEXT_LEN,
            note@.page_number == page_number,
            note@.quote == quote.deep_view(),
            note@.comment == comment@,
    {
        Self::created(fresh_id(), current_time(), page_number, quote, comment)
    }
}

/// What a [`ReadingSession`] holds, as mathematical values.
pub struct ReadingSessionView {
    pub id: Seq<char>,
    pub session_date: Timestamp,
    pub start_page: Option<u32>,
    pub end_page: Option<u32>,
    pub pages_read: u32,
    pub duration_minutes: Option<u32>,
    pub memo: Option<Seq<char>>,
}

/// One sitting with a book.
#[derive(Debug)]
pub struct ReadingSession {
    pub id: String,
    pub session_date: Timestamp,
    pub start_page: Option<u32>,
    pub end_page: Option<u32>,
    pub pages_read: u32,
    pub duration_minutes: Option<u32>,
    pub memo: Option<String>,
}

impl View for ReadingSession {
    type V = ReadingSessionView;

    open spec fn view(&self) -> ReadingSessionView {
        ReadingSessionView {
            id: self.id@,
            session_date: self.session_date,
            start_page: self.start_page,
            end_page: self.end_page,
            pages_read: self.pages_read,
            duration_minutes: self.duration_minutes,
            memo: self.memo.deep_view(),
        }
    }
}

impl DeepView for ReadingSession {
    type V = ReadingSessionView;

    open spec fn deep_view(&self) -> ReadingSessionView {
        self@
    }
}

impl Clone for ReadingSession {
    fn clone(&self) -> (copy: Self)
        ensures
            copy@ == self@,
    {
        ReadingSession {
            id: self.id.clone(),
            session_date: self.session_date,
            start_page: self.start_page,
            end_page: self.end_page,
            pages_read: self.pages_read,
            duration_minutes: self.duration_minutes,
            memo: self.memo.clone(),
        }
    }
}

impl ReadingSession {
    /// The session that is recorded under the identifier `id`.
    pub fn created(
        id: String,
        session_date: Timestamp,
        start_page: Option<u32>,
        end_page: Option<u32>,
        pages_read: u32,
        duration_minutes: Option<u32>,
        memo: Option<String>,
    ) -> (session: Self)
        ensures
            session@ == (ReadingSessionView {
                id: id@,
                session_date,
                start_page,
                end_page,
                pages_read,
                duration_minutes,
                memo: memo.deep_view(),
            }),
    {
        Self { id, session_date, start_page, end_page, pages_read, duration_minutes, memo }
    }

    /// A new session with a random identifier.
    pub fn new(
        session_date: Timestamp,
        start_page: Option<u32>,
        end_page: Option<u32>,
        pages_read: u32,
        duration_minutes: Option<u32>,
        memo: Option<String>,
    ) -> (session: Self)
        ensures
            session@.id.len() == UUID_TEXT_LEN,
            session@ == (ReadingSessionView {
                id: session@.id,
                session_date,
                start_page,
                end_page,
                pages_read,
                duration_minutes,
                memo: memo.deep_view(),
            }),
    {
        Self::created(
            fresh_id(),
            session_date,
            start_page,
            end_page,
            pages_read,
            duration_minutes,
            memo,
        )
    }
}

/// What a [`ReadingBook`] holds, as mathematical values.
pub struct ReadingBookView {
    pub id: Seq<char>,
    pub title: Seq<char>,
    pub author: Option<Seq<char>>,
    pub isbn: Option<Seq<char>>,
    pub publisher: Option<Seq<char>>,
    pub published_year: Option<i32>,
    pub cover_image_url: Option<Seq<char>>,
    pub genres: Seq<Seq<char>>,
    pub status: ReadingStatus,
    pub start_date: Option<Timestamp>,
    pub finish_date: Option<Timestamp>,
    pub progress_percent: Option<u8>,
    pub total_pages: Option<u32>,
    pub current_page: Option<u32>,
    pub rating: Option<u8>,
    pub summary: Seq<char>,
    pub notes: Seq<ReadingNoteView>,
    pub reading_sessions: Seq<ReadingSessionView>,
    pub tags: Seq<Seq<char>>,
    pub created_at: Timestamp,
    pub updated_at: Timestamp,
}

/// A book in the reading log. It owns its notes and its sessions.
#[derive(Debug)]
pub struct ReadingBook {
    pub id: String,
    pub title: String,
    pub author: Option<String>,
    pub isbn: Option<String>,
    pub publisher: Option<String>,
    pub published_year: Option<i32>,
    pub cover_image_url: Option<String>,
    pub genres: Vec<String>,
    pub status: ReadingStatus,
    pub start_date: Option<Timestamp>,
    pub finish_date: Option<Timestamp>,
    pub progress_percent: Option<u8>,
    pub total_pages: Option<u32>,
    pub current_page: Option<u32>,
    pub rating: Option<u8>,
    pub summary: String,
    pub notes: Vec<ReadingNote>,
    pub reading_sessions: Vec<ReadingSession>,
    pub tags: Vec<String>,
    pub created_at: Timestamp,
    pub updated_at: Timestamp,
}

impl View for ReadingBook {
    type V = ReadingBookView;

    open spec fn view(&self) -> ReadingBookView {
        ReadingBookView {
            id: self.id@,
            title: self.title@,
            author: self.author.deep_view(),
            isbn: self.isbn.deep_view(),
            publisher: self.publisher.deep_view(),
            published_year: self.published_year,
            cover_image_url: self.cover_image_url.deep_view(),
            genres: self.genres.deep_view(),
            status: self.status,
            start_date: self.start_date,
            finish_date: self.finish_date,
            progress_percent: self.progress_percent,
            total_pages: self.total_pages,
            current_page: self.current_page,
            rating: self.rating,
            summary: self.summary@,
            notes: self.notes.deep_view(),
            reading_sessions: self.reading_sessions.deep_view(),
            tags: self.tags.deep_view(),
            created_at: self.created_at,
            updated_at: self.updated_at,
        }
    }
}

impl DeepView for ReadingBook {
    type V = ReadingBookView;

    open spec fn deep_view(&self) -> ReadingBookView {
        self@
    }
}

impl Clone for ReadingBook {
    fn clone(&self) -> (copy: Self)
        ensures
            copy@ == self@,
    {
        let genres = self.genres.clone();
        assert(genres.deep_view() =~= self.genres.deep_view());
        let notes = self.notes.clone();
        assert(notes.deep_view() =~= self.notes.deep_view());
        let reading_sessions = self.reading_sessions.clone();
        assert(reading_sessions.deep_view() =~= self.reading_sessions.deep_view());
        let tags = self.tags.clone();
        assert(tags.deep_view() =~= self.tags.deep_view());
        ReadingBook {
            id: self.id.clone(),
            title: self.title.clone(),
            author: self.author.clone(),
            isbn: self.isbn.clone(),
            publisher: self.publisher.clone(),
            published_year: self.published_year,
            cover_image_url: self.cover_image_url.clone(),
            genres,
            status: self.status,
            start_date: self.start_date,
            finish_date: self.finish_date,
            progress_percent: self.progress_percent,
            total_pages: self.total_pages,
            current_page: self.current_page,
            rating: self.rating,
            summary: self.summary.clone(),
            notes,
            reading_sessions,
            tags,
            created_at: self.created_at,
            updated_at: self.updated_at,
        }
    }
}

/// The book that comes into being at `now` under the identifier `id`: only
/// the title is known, and nothing has been read.
pub open spec fn created_book(id: Seq<char>, now: Timestamp, title: Seq<char>) -> ReadingBookView {
    ReadingBookView {
        id,
        title,
        author: None,
        isbn: None,
        publisher: None,
        published_year: None,
        cover_image_url: None,
        genres: Seq::empty(),
        status: ReadingStatus::WantToRead,
        start_date: None,
        finish_date: None,
        progress_percent: None,
        total_pages: None,
        current_page: None,
        rating: None,
        summary: Seq::empty(),
        notes: Seq::empty(),
        reading_sessions: Seq::empty(),
        tags: Seq::empty(),
        created_at: now,
        updated_at: now,
    }
}

/// The share of `total` pages that `current` is, in whole percent rounded
/// down; 255 where the share is above that.
pub open spec fn percent_read(current: u32, total: u32) -> u8
    recommends
        total > 0,
{
    let percent = (current as int * 100) / (total as int);
    if percent > 255 {
        255u8
    } else {
        percent as u8
    }
}

/// The progress of a book after an edit: computed anew where both page
/// counts are known and the total is positive, else as it stood before.
pub open spec fn progress_after(
    previous: Option<u8>,
    total_pages: Option<u32>,
    current_page: Option<u32>,
) -> Option<u8> {
    if total_pages is Some && current_page is Some && total_pages->0 > 0 {
        Some(percent_read(current_page->0, total_pages->0))
    } else {
        previous
    }
}

/// `book` after an edit at `now`. Identifier, creation time, notes and
/// sessions stay; the progress follows [`progress_after`].
pub open spec fn revised_book(
    book: ReadingBookView,
    now: Timestamp,
    title: Seq<char>,
    author: Option<Seq<char>>,
    isbn: Option<Seq<char>>,
    publisher: Option<Seq<char>>,
    published_year: Option<i32>,
    cover_image_url: Option<Seq<char>>,
    genres: Seq<Seq<char>>,
    status: ReadingStatus,
    start_date: Option<Timestamp>,
    finish_date: Option<Timestamp>,
    total_pages: Option<u32>,
    current_page: Option<u32>,
    rating: Option<u8>,
    summary: Seq<char>,
    tags: Seq<Seq<char>>,
) -> ReadingBookView {
    ReadingBookView {
        title,
        author,
        isbn,
        publisher,
        published_year,
        cover_image_url,
        genres,
        status,
        start_date,
        finish_date,
        progress_percent: progress_after(book.progress_percent, total_pages, current_page),
        total_pages,
        current_page,
        rating,
        summary,
        tags,
        updated_at: now,
        ..book
    }
}

/// The share of `total` pages that `current` is, in whole percent.
pub fn percent_of_pages(current: u32, total: u32) -> (percent: u8)
    requires
        total > 0,
    ensures
        percent == percent_read(current, total),
{
    let share: u64 = (current as u64 * 100) / (total as u64);
    if share > 255 {
        255
    } else {
        share as u8
    }
}

impl ReadingBook {
    /// The book that comes into being at `now` under the identifier `id`.
    pub fn created(id: String, now: Timestamp, title: String) -> (book: Self)
        ensures
            book@ == created_book(id@, now, title@),
    {
        let book = Self {
            id,
            title,
            author: None,
            isbn: None,
            publisher: None,
            published_year: None,
            cover_image_url: None,
            genres: Vec::new(),
            status: ReadingStatus::WantToRead,
            start_date: None,
            finish_date: None,
            progress_percent: None,
            total_pages: None,
            current_page: None,
            rating: None,
            summary: String::new(),
            notes: Vec::new(),
            reading_sessions: Vec::new(),
            tags: Vec::new(),
            created_at: now,
            updated_at: now,
        };
        assert(book@.genres =~= Seq::empty());
        assert(book@.notes =~= Seq::empty());
        assert(book@.reading_sessions =~= Seq::empty());
        assert(book@.tags =~= Seq::empty());
        book
    }

    /// A new book with a random identifier, created now.
    pub fn new(title: String) -> (book: Self)
        ensures
            book@.id.len() == UUID_TEXT_LEN,
            book@ == created_book(book@.id, book@.created_at, title@),
    {
        Self::created(fresh_id(), current_time(), title)
    }

    /// Overwrites what can be edited, stamps the book with `now` and brings
    /// the progress up to date.
    pub fn revise(
        &mut self,
        now: Timestamp,
        title: String,
        author: Option<String>,
        isbn: Option<String>,
        publisher: Option<String>,
        published_year: Option<i32>,
        cover_image_url: Option<String>,
        genres: Vec<String>,
        status: ReadingStatus,
        start_date: Option<Timestamp>,
        finish_date: Option<Timestamp>,
        total_pages: Option<u32>,
        current_page: Option<u32>,
        rating: Option<u8>,
        summary: String,
        tags: Vec<String>,
    )
        ensures
            final(self)@ == revised_book(
                old(self)@,
                now,
                title@,
                author.deep_view(),
                isbn.deep_view(),
                publisher.deep_view(),
                published_year,
                cover_image_url.deep_view(),
                genres.deep_view(),
                status,
                start_date,
                finish_date,
                total_pages,
                current_page,
                rating,
                summary@,
                tags.deep_view(),
            ),
    {
        self.title = title;
        self.author = author;
        self.isbn = isbn;
        self.publisher = publisher;
        self.published_year = published_year;
        self.cover_image_url = cover_image_url;
        self.genres = genres;
        self.status = status;
        self.start_date = start_date;
        self.finish_date = finish_date;
        self.total_pages = total_pages;
        self.current_page = current_page;
        self.rating = rating;
        self.summary = summary;
        self.tags = tags;
        self.updated_at = now;
        if let (Some(total), Some(current)) = (total_pages, current_page) {
            if total > 0 {
                self.progress_percent = Some(percent_of_pages(current, total));
            }
        }
    }

    /// Overwrites what can be edited, stamps the book with the current time
    /// and brings the progress up to date.
    pub fn update(
        &mut self,
        title: String,
        author: Option<String>,
        isbn: Option<String>,
        publisher: Option<String>,
        published_year: Option<i32>,
        cover_image_url: Option<String>,
        genres: Vec<String>,
        status: ReadingStatus,
        start_date: Option<Timestamp>,
        finish_date: Option<Timestamp>,
        total_pages: Option<u32>,
        current_page: Option<u32>,
        rating: Option<u8>,
        summary: String,
        tags: Vec<String>,
    )
        ensures
            final(self)@ == revised_book(
                old(self)@,
                final(self)@.updated_at,
                title@,
                author.deep_view(),
                isbn.deep_view(),
                publisher.deep_view(),
                published_year,
                cover_image_url.deep_view(),
                genres.deep_view(),
                status,
                start_date,
                finish_date,
                total_pages,
                current_page,
                rating,
                summary@,
                tags.deep_view(),
            ),
    {
        self.revise(
            current_time(),
            title,
            author,
            isbn,
            publisher,
            published_year,
            cover_image_url,
            genres,
            status,
            start_date,
            finish_date,
            total_pages,
            current_page,
            rating,
            summary,
            tags,
        );
    }
}

impl Identified for ReadingNoteView {
    open spec fn identifier(&self) -> Seq<char> {
        self.id
    }
}

impl Entity for ReadingNote {
    fn id(&self) -> (id: &String) {
        &self.id
    }
}

impl Identified for ReadingSessionView {
    open spec fn identifier(&self) -> Seq<char> {
        self.id
    }
}

impl Entity for ReadingSession {
    fn id(&self) -> (id: &String) {
        &self.id
    }
}

impl Identified for ReadingBookView {
    open spec fn identifier(&self) -> Seq<char> {
        self.id
    }
}

impl Entity for ReadingBook {
    fn id(&self) -> (id: &String) {
        &self.id
    }
}


/// The word under which a status is stored.
pub open spec fn status_text(status: ReadingStatus) -> Seq<char> {
    match status {
        ReadingStatus::WantToRead => "want_to_read"@,
        ReadingStatus::Reading => "reading"@,
        ReadingStatus::Finished => "finished"@,
        ReadingStatus::Paused => "paused"@,
    }
}

/// The status that a stored word stands for. A word that stands for none
/// is read as `WantToRead`.
pub open spec fn status_from_text(text: Seq<char>) -> ReadingStatus {
    if text == "reading"@ {
        ReadingStatus::Reading
    } else if text == "finished"@ {
        ReadingStatus::Finished
    } else if text == "paused"@ {
        ReadingStatus::Paused
    } else {
        ReadingStatus::WantToRead
    }
}

/// A status that is stored and read back is the status it was.
pub proof fn lemma_status_round_trip(status: ReadingStatus)
    ensures
        status_from_text(status_text(status)) == status,
{
    reveal_strlit("want_to_read");
    reveal_strlit("reading");
    reveal_strlit("finished");
    reveal_strlit("paused");
    assert("want_to_read"@.len() == 12);
    assert("reading"@.len() == 7);
    assert("finished"@.len() == 8);
    assert("paused"@.len() == 6);
}

impl ReadingStatus {
    /// The word under which this status is stored.
    pub fn as_str(&self) -> (word: &'static str)
        ensures
            word@ == status_text(*self),
    {
        match self {
            ReadingStatus::WantToRead => "want_to_read",
            ReadingStatus::Reading => "reading",
            ReadingStatus::Finished => "finished",
            ReadingStatus::Paused => "paused",
        }
    }

    /// The status that the stored word `text` stands for.
    pub fn from_text(text: &str) -> (status: Self)
        ensures
            status == status_from_text(text@),
    {
        let word = text.to_owned();
        if word == "reading".to_owned() {
            ReadingStatus::Reading
        } else if word == "finished".to_owned() {
            ReadingStatus::Finished
        } else if word == "paused".to_owned() {
            ReadingStatus::Paused
        } else {
            ReadingStatus::WantToRead
        }
    }
}

} // verus!
