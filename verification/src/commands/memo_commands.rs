//! Commands on memos and folders.

use crate::collection::{find_by_id, index_with_id, remove_by_id, without_id};
use crate::ident::UUID_TEXT_LEN;
use crate::memo::{created_memo, revised_memo, Folder, FolderView, Memo, MemoView};
use crate::state::{AppState, AppStateView};
use crate::text::{
    characters, insert_ascending, lowercase, occurs, occurs_in, strictly_ascending, to_lowercase,
};
use vstd::prelude::*;

verus! {

/// A copy of `memos`.
pub fn snapshot_memos(memos: &Vec<Memo>) -> (snapshot: Vec<Memo>)
    ensures
        snapshot.deep_view() == memos.deep_view(),
{
    let snapshot = memos.clone();
    assert(snapshot.deep_view() =~= memos.deep_view());
    snapshot
}

/// A copy of `folders`.
pub fn snapshot_folders(folders: &Vec<Folder>) -> (snapshot: Vec<Folder>)
    ensures
        snapshot.deep_view() == folders.deep_view(),
{
    let snapshot = folders.clone();
    assert(snapshot.deep_view() =~= folders.deep_view());
    snapshot
}

/// All memos, in their order.
pub fn get_memos(state: &AppState) -> (snapshot: Vec<Memo>)
    ensures
        snapshot.deep_view() == state@.memos,
{
    snapshot_memos(&state.memos)
}

/// The first memo with the identifier `id`.
pub fn get_memo(state: &AppState, id: String) -> (memo: Option<Memo>)
    ensures
        memo.deep_view() == match index_with_id(state@.memos, id@) {
            Some(i) => Some(state@.memos[i]),
            None => None,
        },
{
    match find_by_id(&state.memos, &id) {
        Some(i) => Some(state.memos[i].clone()),
        None => None,
    }
}

/// Appends a new memo with a random identifier, created now.
pub fn create_memo(
    state: &mut AppState,
    title: String,
    content: String,
    folder_id: Option<String>,
    tags: Vec<String>,
) -> (snapshot: Vec<Memo>)
    ensures
        final(state)@.memos.len() == old(state)@.memos.len() + 1,
        final(state)@ == (AppStateView {
            memos: old(state)@.memos.push(final(state)@.memos.last()),
            ..old(state)@
        }),
        final(state)@.memos.last().id.len() == UUID_TEXT_LEN,
        final(state)@.memos.last() == created_memo(
            final(state)@.memos.last().id,
            final(state)@.memos.last().created_at,
            title@,
            content@,
            folder_id.deep_view(),
            tags.deep_view(),
        ),
        snapshot.deep_view() == final(state)@.memos,
{
    let memo = Memo::new(title, content, folder_id, tags);
    state.memos.push(memo);
    assert(state.memos.deep_view() =~= old(state)@.memos.push(memo@));
    snapshot_memos(&state.memos)
}

/// Overwrites the first memo with the identifier `id` and stamps it with
/// the current time. Where there is none, nothing changes.
pub fn update_memo(
    state: &mut AppState,
    id: String,
    title: String,
    content: String,
    folder_id: Option<String>,
    tags: Vec<String>,
) -> (snapshot: Vec<Memo>)
    ensures
        final(state)@ == (AppStateView {
            memos: match index_with_id(old(state)@.memos, id@) {
                Some(i) => old(state)@.memos.update(
                    i,
                    revised_memo(
                        old(state)@.memos[i],
                        final(state)@.memos[i].updated_at,
                        title@,
                        content@,
                        folder_id.deep_view(),
                        tags.deep_view(),
                    ),
                ),
                None => old(state)@.memos,
            },
            ..old(state)@
        }),
        snapshot.deep_view() == final(state)@.memos,
{
    if let Some(i) = find_by_id(&state.memos, &id) {
        state.memos[i].update(title, content, folder_id, tags);
        assert(state.memos.deep_view() =~= old(state)@.memos.update(
            i as int,
            state.memos[i as int]@,
        ));
    }
    snapshot_memos(&state.memos)
}

/// Removes every memo with the identifier `id`.
pub fn delete_memo(state: &mut AppState, id: String) -> (snapshot: Vec<Memo>)
    ensures
        final(state)@ == (AppStateView { memos: without_id(old(state)@.memos, id@), ..old(state)@ }),
        snapshot.deep_view() == final(state)@.memos,
{
    remove_by_id(&mut state.memos, &id);
    snapshot_memos(&state.memos)
}

/// Whether one of `tags`, in lower case, holds `needle`.
pub open spec fn some_tag_holds(tags: Seq<Seq<char>>, needle: Seq<char>) -> bool {
    exists|k: int| 0 <= k < tags.len() && occurs_in(needle, lowercase(#[trigger] tags[k]))
}

/// Whether `memo` matches a search for `needle`, which is in lower case
/// already: the title, the content or a tag holds it, whatever their case.
pub open spec fn memo_matches(memo: MemoView, needle: Seq<char>) -> bool {
    ||| occurs_in(needle, lowercase(memo.title))
    ||| occurs_in(needle, lowercase(memo.content))
    ||| some_tag_holds(memo.tags, needle)
}

/// The memos that match a search for `query`, in their order.
pub open spec fn matching_memos(memos: Seq<MemoView>, query: Seq<char>) -> Seq<MemoView> {
    memos.filter(|memo: MemoView| memo_matches(memo, lowercase(query)))
}

proof fn lemma_matching_memos_push(memos: Seq<MemoView>, memo: MemoView, query: Seq<char>)
    ensures
        matching_memos(memos.push(memo), query) == if memo_matches(memo, lowercase(query)) {
            matching_memos(memos, query).push(memo)
        } else {
            matching_memos(memos, query)
        },
{
    reveal(Seq::filter);
    assert(memos.push(memo).drop_last() =~= memos);
}

/// Whether `text`, in lower case, holds `needle`.
pub fn holds(text: &str, needle: &Vec<char>) -> (held: bool)
    ensures
        held == occurs_in(needle@, lowercase(text@)),
{
    let lower = to_lowercase(text);
    occurs(needle, &characters(lower.as_str()))
}

/// Whether one of `tags`, in lower case, holds `needle`.
pub fn tag_holds(tags: &Vec<String>, needle: &Vec<char>) -> (held: bool)
    ensures
        held == some_tag_holds(tags.deep_view(), needle@),
{
    let mut k: usize = 0;
    while k < tags.len()
        invariant
            k <= tags.len(),
            forall|j: int|
                0 <= j < k ==> !occurs_in(needle@, lowercase(#[trigger] tags.deep_view()[j])),
        decreases tags.len() - k,
    {
        if holds(tags[k].as_str(), needle) {
            assert(occurs_in(needle@, lowercase(tags.deep_view()[k as int])));
            return true;
        }
        k += 1;
    }
    false
}

/// Whether `memo` matches a search for `needle`, which is in lower case
/// already.
pub fn matches_search(memo: &Memo, needle: &Vec<char>) -> (matched: bool)
    ensures
        matched == memo_matches(memo@, needle@),
{
    holds(memo.title.as_str(), needle) || holds(memo.content.as_str(), needle) || tag_holds(
        &memo.tags,
        needle,
    )
}

/// The memos whose title, content or tags hold `query`, whatever the case of
/// either.
pub fn search_memos(state: &AppState, query: String) -> (found: Vec<Memo>)
    ensures
        found.deep_view() == matching_memos(state@.memos, query@),
{
    let needle = characters(to_lowercase(query.as_str()).as_str());
    let ghost all = state@.memos;
    let mut found: Vec<Memo> = Vec::new();
    let mut i: usize = 0;
    proof {
        reveal(Seq::filter);
        assert(all.take(0) =~= Seq::<MemoView>::empty());
        assert(found.deep_view() =~= Seq::<MemoView>::empty());
    }
    while i < state.memos.len()
        invariant
            i <= state.memos.len(),
            all == state@.memos,
            needle@ == lowercase(query@),
            found.deep_view() == matching_memos(all.take(i as int), query@),
        decreases state.memos.len() - i,
    {
        proof {
            lemma_matching_memos_push(all.take(i as int), all[i as int], query@);
            assert(all.take(i + 1) =~= all.take(i as int).push(all[i as int]));
        }
        if matches_search(&state.memos[i], &needle) {
            let ghost held = found.deep_view();
            found.push(state.memos[i].clone());
            assert(found.deep_view() =~= held.push(all[i as int]));
        }
        i += 1;
    }
    assert(all.take(all.len() as int) =~= all);
    found
}

/// The tags of the first `count` memos, as a set.
pub open spec fn tags_among(memos: Seq<MemoView>, count: nat) -> Set<Seq<char>>
    recommends
        count <= memos.len(),
    decreases count,
{
    if count == 0 {
        Set::empty()
    } else {
        tags_among(memos, (count - 1) as nat).union(memos[count - 1].tags.to_set())
    }
}

/// Every tag that some memo carries, as a set.
pub open spec fn all_tags(memos: Seq<MemoView>) -> Set<Seq<char>> {
    tags_among(memos, memos.len())
}

/// A text is among the tags of the first `count` memos exactly if one of
/// those memos carries it.
pub proof fn lemma_tags_among(memos: Seq<MemoView>, count: nat, tag: Seq<char>)
    requires
        count <= memos.len(),
    ensures
        tags_among(memos, count).contains(tag) <==> exists|i: int, k: int|
            0 <= i < count && 0 <= k < memos[i].tags.len() && #[trigger] memos[i].tags[k] == tag,
    decreases count,
{
    if count > 0 {
        lemma_tags_among(memos, (count - 1) as nat, tag);
        let last = memos[count - 1].tags;
        if last.to_set().contains(tag) {
            let k = choose|k: int| 0 <= k < last.len() && last[k] == tag;
            assert(memos[count - 1].tags[k] == tag);
        }
        if exists|i: int, k: int|
            0 <= i < count && 0 <= k < memos[i].tags.len() && #[trigger] memos[i].tags[k] == tag {
            let (i, k) = choose|i: int, k: int|
                0 <= i < count && 0 <= k < memos[i].tags.len() && #[trigger] memos[i].tags[k]
                    == tag;
            if i == count - 1 {
                assert(last.contains(tag));
            } else {
                assert(memos[i].tags[k] == tag);
            }
        }
    }
}

/// Puts each of `tags` into the ascending vector `sorted`, unless it is
/// there already.
pub fn insert_tags(sorted: &mut Vec<String>, tags: &Vec<String>)
    requires
        strictly_ascending(old(sorted).deep_view()),
    ensures
        strictly_ascending(final(sorted).deep_view()),
        final(sorted).deep_view().to_set() == old(sorted).deep_view().to_set().union(
            tags.deep_view().to_set(),
        ),
{
    let ghost before = sorted.deep_view().to_set();
    let ghost all = tags.deep_view();
    let mut k: usize = 0;
    assert(all.take(0).to_set() =~= Set::empty());
    assert(before.union(Set::empty()) =~= before);
    while k < tags.len()
        invariant
            k <= tags.len(),
            all == tags.deep_view(),
            strictly_ascending(sorted.deep_view()),
            sorted.deep_view().to_set() == before.union(all.take(k as int).to_set()),
        decreases tags.len() - k,
    {
        insert_ascending(sorted, tags[k].clone());
        proof {
            let grown = all.take(k + 1);
            let held = all.take(k as int);
            assert(grown =~= held.push(all[k as int]));
            assert forall|t: Seq<char>| grown.to_set().contains(t) <==> held.to_set().insert(
                all[k as int],
            ).contains(t) by {
                if grown.to_set().contains(t) {
                    let j = choose|j: int| 0 <= j < grown.len() && grown[j] == t;
                    if j < k {
                        assert(held[j] == t);
                    }
                }
                if held.to_set().contains(t) {
                    let j = choose|j: int| 0 <= j < held.len() && held[j] == t;
                    assert(grown[j] == t);
                }
                if t == all[k as int] {
                    assert(grown[k as int] == t);
                }
            }
            assert(grown.to_set() =~= held.to_set().insert(all[k as int]));
            assert(before.union(held.to_set()).insert(all[k as int]) =~= before.union(
                grown.to_set(),
            ));
        }
        k += 1;
    }
    assert(all.take(all.len() as int) =~= all);
}

/// Every tag that some memo carries, once each, in ascending order.
pub fn get_all_tags(state: &AppState) -> (tags: Vec<String>)
    ensures
        strictly_ascending(tags.deep_view()),
        tags.deep_view().to_set() == all_tags(state@.memos),
{
    let ghost all = state@.memos;
    let mut tags: Vec<String> = Vec::new();
    let mut i: usize = 0;
    assert(tags.deep_view().to_set() =~= Set::empty());
    while i < state.memos.len()
        invariant
            i <= state.memos.len(),
            all == state@.memos,
            strictly_ascending(tags.deep_view()),
            tags.deep_view().to_set() == tags_among(all, i as nat),
        decreases state.memos.len() - i,
    {
        insert_tags(&mut tags, &state.memos[i].tags);
        i += 1;
    }
    tags
}

/// All folders, in their order.
pub fn get_folders(state: &AppState) -> (snapshot: Vec<Folder>)
    ensures
        snapshot.deep_view() == state@.folders,
{
    snapshot_folders(&state.folders)
}

/// Appends a new folder with a random identifier.
pub fn create_folder(state: &mut AppState, name: String, parent_id: Option<String>) -> (snapshot:
    Vec<Folder>)
    ensures
        final(state)@.folders.len() == old(state)@.folders.len() + 1,
        final(state)@ == (AppStateView {
            folders: old(state)@.folders.push(final(state)@.folders.last()),
            ..old(state)@
        }),
        final(state)@.folders.last().id.len() == UUID_TEXT_LEN,
        final(state)@.folders.last().name == name@,
        final(state)@.folders.last().parent_id == parent_id.deep_view(),
        snapshot.deep_view() == final(state)@.folders,
{
    let folder = Folder::new(name, parent_id);
    state.folders.push(folder);
    assert(state.folders.deep_view() =~= old(state)@.folders.push(folder@));
    snapshot_folders(&state.folders)
}

/// Renames the first folder with the identifier `id`. Where there is none,
/// nothing changes.
pub fn update_folder(state: &mut AppState, id: String, name: String) -> (snapshot: Vec<Folder>)
    ensures
        final(state)@ == (AppStateView {
            folders: match index_with_id(old(state)@.folders, id@) {
                Some(i) => old(state)@.folders.update(
                    i,
                    FolderView { name: name@, ..old(state)@.folders[i] },
                ),
                None => old(state)@.folders,
            },
            ..old(state)@
        }),
        snapshot.deep_view() == final(state)@.folders,
{
    if let Some(i) = find_by_id(&state.folders, &id) {
        state.folders[i].name = name;
        assert(state.folders.deep_view() =~= old(state)@.folders.update(
            i as int,
            FolderView { name: name@, ..old(state)@.folders[i as int] },
        ));
    }
    snapshot_folders(&state.folders)
}

/// `memos` with every memo that was filed in `folder` filed nowhere.
pub open spec fn unfiled(memos: Seq<MemoView>, folder: Seq<char>) -> Seq<MemoView> {
    Seq::new(
        memos.len(),
        |i: int|
            if memos[i].folder_id == Some(folder) {
                MemoView { folder_id: None, ..memos[i] }
            } else {
                memos[i]
            },
    )
}

/// Removes every folder with the identifier `id`. The memos that were filed
/// in it stay, filed nowhere.
pub fn delete_folder(state: &mut AppState, id: String) -> (snapshot: Vec<Folder>)
    ensures
        final(state)@ == (AppStateView {
            folders: without_id(old(state)@.folders, id@),
            memos: unfiled(old(state)@.memos, id@),
            ..old(state)@
        }),
        snapshot.deep_view() == final(state)@.folders,
{
    remove_by_id(&mut state.folders, &id);
    let ghost before = state.memos.deep_view();
    let mut i: usize = 0;
    while i < state.memos.len()
        invariant
            i <= state.memos.len(),
            state.memos.len() == before.len(),
            forall|k: int| 0 <= k < i ==> #[trigger] state.memos[k]@ == unfiled(before, id@)[k],
            forall|k: int| i <= k < before.len() ==> #[trigger] state.memos[k]@ == before[k],
            state.folders.deep_view() == without_id(old(state)@.folders, id@),
            state.tasks.deep_view() == old(state)@.tasks,
            state.groups.deep_view() == old(state)@.groups,
            state.next_id == old(state).next_id,
            state.mail_settings@ == old(state)@.mail_settings,
            state.reading_books.deep_view() == old(state)@.reading_books,
            state.calendar_events.deep_view() == old(state)@.calendar_events,
        decreases state.memos.len() - i,
    {
        assert(state.memos[i as int]@ == before[i as int]);
        let filed_here = match &state.memos[i].folder_id {
            Some(folder) => *folder == id,
            None => false,
        };
        if filed_here {
            state.memos[i].folder_id = None;
        }
        i += 1;
    }
    assert(state.memos.deep_view() =~= unfiled(before, id@));
    snapshot_folders(&state.folders)
}

/// Deleting a folder deletes no memo. Every memo stays at its place; those
/// that were filed in the folder are filed nowhere afterwards, and all else
/// about them, and all about the other memos, is as it was.
pub proof fn lemma_unfiled(memos: Seq<MemoView>, folder: Seq<char>)
    ensures
        unfiled(memos, folder).len() == memos.len(),
        forall|i: int|
            0 <= i < memos.len() && memos[i].folder_id == Some(folder) ==> #[trigger] unfiled(
                memos,
                folder,
            )[i] == (MemoView { folder_id: None, ..memos[i] }),
        forall|i: int|
            0 <= i < memos.len() && memos[i].folder_id != Some(folder) ==> #[trigger] unfiled(
                memos,
                folder,
            )[i] == memos[i],
        forall|i: int|
            0 <= i < memos.len() ==> (#[trigger] unfiled(memos, folder)[i]).folder_id != Some(
                folder,
            ),
{
}

/// The tags that `get_all_tags` lists are those that some memo carries.
pub proof fn lemma_all_tags(memos: Seq<MemoView>, tag: Seq<char>)
    ensures
        all_tags(memos).contains(tag) <==> exists|i: int, k: int|
            0 <= i < memos.len() && 0 <= k < memos[i].tags.len() && #[trigger] memos[i].tags[k]
                == tag,
{
    lemma_tags_among(memos, memos.len(), tag);
}

} // verus!
