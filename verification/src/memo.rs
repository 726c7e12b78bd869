//! Memos and the folders that hold them.

use crate::clock::{current_time, Timestamp};
use crate::ident::{fresh_id, UUID_TEXT_LEN};
use crate::collection::{Entity, Identified};
use vstd::prelude::*;

verus! {

/// What a [`Memo`] holds, as mathematical values.
pub struct MemoView {
    pub id: Seq<char>,
    pub title: Seq<char>,
    pub content: Seq<char>,
    pub folder_id: Option<Seq<char>>,
    pub tags: Seq<Seq<char>>,
    pub created_at: Timestamp,
    pub updated_at: Timestamp,
}

/// A note with a title, free text and tags, optionally filed in a folder.
#[derive(Debug)]
pub struct Memo {
    pub id: String,
    pub title: String,
    pub content: String,
    pub folder_id: Option<String>,
    pub tags: Vec<String>,
    pub created_at: Timestamp,
    pub updated_at: Timestamp,
}

impl View for Memo {
    type V = MemoView;

    open spec fn view(&self) -> MemoView {
        MemoView {
            id: self.id@,
            title: self.title@,
            content: self.content@,
            folder_id: self.folder_id.deep_view(),
            tags: self.tags.deep_view(),
            created_at: self.created_at,
            updated_at: self.updated_at,
        }
    }
}

impl DeepView for Memo {
    type V = MemoView;

    open spec fn deep_view(&self) -> MemoView {
        self@
    }
}

impl Clone for Memo {
    fn clone(&self) -> (copy: Self)
        ensures
            copy@ == self@,
    {
        let tags = self.tags.clone();
        assert(tags.deep_view() =~= self.tags.deep_view());
        Memo {
            id: self.id.clone(),
            title: self.title.clone(),
            content: self.content.clone(),
            folder_id: self.folder_id.clone(),
            tags,
            created_at: self.created_at,
            updated_at: self.updated_at,
        }
    }
}

/// The memo that comes into being at `now` under the identifier `id`.
pub open spec fn created_memo(
    id: Seq<char>,
    now: Timestamp,
    title: Seq<char>,
    content: Seq<char>,
    folder_id: Option<Seq<char>>,
    tags: Seq<Seq<char>>,
) -> MemoView {
    MemoView { id, title, content, folder_id, tags, created_at: now, updated_at: now }
}

/// `memo` after an edit at `now`: identifier and creation time stay.
pub open spec fn revised_memo(
    memo: MemoView,
    now: Timestamp,
    title: Seq<char>,
    content: Seq<char>,
    folder_id: Option<Seq<char>>,
    tags: Seq<Seq<char>>,
) -> MemoView {
    MemoView { title, content, folder_id, tags, updated_at: now, ..memo }
}

impl Memo {
    /// The memo that comes into being at `now` under the identifier `id`.
    pub fn created(
        id: String,
        now: Timestamp,
        title: String,
        content: String,
        folder_id: Option<String>,
        tags: Vec<String>,
    ) -> (memo: Self)
        ensures
            memo@ == created_memo(
                id@,
                now,
                title@,
                content@,
                folder_id.deep_view(),
                tags.deep_view(),
            ),
    {
        Self { id, title, content, folder_id, tags, created_at: now, updated_at: now }
    }

    /// A new memo with a random identifier, created now.
    pub fn new(title: String, content: String, folder_id: Option<String>, tags: Vec<String>) -> (memo:
        Self)
        ensures
            memo@.id.len() == UUID_TEXT_LEN,
            memo@ == created_memo(
                memo@.id,
                memo@.created_at,
                title@,
                content@,
                folder_id.deep_view(),
                tags.deep_view(),
            ),
    {
        Self::created(fresh_id(), current_time(), title, content, folder_id, tags)
    }

    /// Overwrites what can be edited and stamps the memo with `now`.
    pub fn revise(
        &mut self,
        now: Timestamp,
        title: String,
        content: String,
        folder_id: Option<String>,
        tags: Vec<String>,
    )
        ensures
            final(self)@ == revised_memo(
                old(self)@,
                now,
                title@,
                content@,
                folder_id.deep_view(),
                tags.deep_view(),
            ),
    {
        self.title = title;
        self.content = content;
        self.folder_id = folder_id;
        self.tags = tags;
        self.updated_at = now;
    }

    /// Overwrites what can be edited and stamps the memo with the current
    /// time.
    pub fn update(
        &mut self,
        title: String,
        content: String,
        folder_id: Option<String>,
        tags: Vec<String>,
    )
        ensures
            final(self)@ == revised_memo(
                old(self)@,
                final(self)@.updated_at,
                title@,
                content@,
                folder_id.deep_view(),
                tags.deep_view(),
            ),
    {
        self.revise(current_time(), title, content, folder_id, tags);
    }
}

/// What a [`Folder`] holds, as mathematical values.
pub struct FolderView {
    pub id: Seq<char>,
    pub name: Seq<char>,
    pub parent_id: Option<Seq<char>>,
}

/// A folder for memos, optionally inside another folder.
#[derive(Debug)]
pub struct Folder {
    pub id: String,
    pub name: String,
    pub parent_id: Option<String>,
}

impl View for Folder {
    type V = FolderView;

    open spec fn view(&self) -> FolderView {
        FolderView { id: self.id@, name: self.name@, parent_id: self.parent_id.deep_view() }
    }
}

impl DeepView for Folder {
    type V = FolderView;

    open spec fn deep_view(&self) -> FolderView {
        self@
    }
}

impl Clone for Folder {
    fn clone(&self) -> (copy: Self)
        ensures
            copy@ == self@,
    {
        Folder { id: self.id.clone(), name: self.name.clone(), parent_id: self.parent_id.clone() }
    }
}

impl Folder {
    /// The folder that comes into being under the identifier `id`.
    pub fn created(id: String, name: String, parent_id: Option<String>) -> (folder: Self)
        ensures
            folder@ == (FolderView { id: id@, name: name@, parent_id: parent_id.deep_view() }),
    {
        Self { id, name, parent_id }
    }

    /// A new folder with a random identifier.
    pub fn new(name: String, parent_id: Option<String>) -> (folder: Self)
        ensures
            folder@.id.len() == UUID_TEXT_LEN,
            folder@.name == name@,
            folder@.parent_id == parent_id.deep_view(),
    {
        Self::created(fresh_id(), name, parent_id)
    }
}

impl Identified for MemoView {
    open spec fn identifier(&self) -> Seq<char> {
        self.id
    }
}

impl Entity for Memo {
    fn id(&self) -> (id: &String) {
        &self.id
    }
}

impl Identified for FolderView {
    open spec fn identifier(&self) -> Seq<char> {
        self.id
    }
}

impl Entity for Folder {
    fn id(&self) -> (id: &String) {
        &self.id
    }
}


} // verus!
