use noruno::clock::Timestamp;
use noruno::commands::memo_commands::{
    create_folder, create_memo, delete_folder, delete_memo, get_all_tags, get_folders, get_memo,
    get_memos, holds, insert_tags, matches_search, search_memos, tag_holds, update_folder,
    update_memo,
};
use noruno::memo::{Folder, Memo};
use noruno::settings::MailSettings;
use noruno::state::AppState;
use noruno::text::{characters, insert_ascending, occurs, stands_before};

fn empty_state() -> AppState {
    AppState::new(
        Vec::new(),
        Vec::new(),
        MailSettings::default(),
        Vec::new(),
        Vec::new(),
        Vec::new(),
        Vec::new(),
    )
}

fn chars(text: &str) -> Vec<char> {
    text.chars().collect()
}

fn strings(words: &[&str]) -> Vec<String> {
    words.iter().map(|w| w.to_string()).collect()
}

fn memo(id: &str, title: &str, content: &str, folder: Option<&str>, tags: &[&str]) -> Memo {
    Memo::created(
        id.to_string(),
        Timestamp { secs: 1_700_000_000, nanos: 5 },
        title.to_string(),
        content.to_string(),
        folder.map(|f| f.to_string()),
        strings(tags),
    )
}

fn state_with_memos(memos: Vec<Memo>) -> AppState {
    let mut state = empty_state();
    state.memos = memos;
    state
}

fn ids(memos: &[Memo]) -> Vec<String> {
    memos.iter().map(|m| m.id.clone()).collect()
}

#[test]
fn new_memo_has_a_fresh_identifier_and_one_time() {
    let a = Memo::new("T".to_string(), "C".to_string(), Some("f".to_string()), strings(&["x"]));
    let b = Memo::new("T".to_string(), "C".to_string(), None, Vec::new());
    assert_eq!(a.id.len(), 36);
    assert_eq!(b.id.len(), 36);
    assert_ne!(a.id, b.id);
    assert_eq!(a.id.matches('-').count(), 4);
    assert_eq!(a.title, "T");
    assert_eq!(a.content, "C");
    assert_eq!(a.folder_id, Some("f".to_string()));
    assert_eq!(a.tags, strings(&["x"]));
    assert_eq!(a.created_at, a.updated_at);
    assert!(a.created_at.secs > 1_600_000_000);
    assert_eq!(b.folder_id, None);
}

#[test]
fn memo_update_keeps_identifier_and_creation_time() {
    let mut m = memo("memo-1", "Old", "old text", Some("f"), &["a"]);
    m.update("New".to_string(), "new text".to_string(), None, strings(&["b", "c"]));
    assert_eq!(m.id, "memo-1");
    assert_eq!(m.title, "New");
    assert_eq!(m.content, "new text");
    assert_eq!(m.folder_id, None);
    assert_eq!(m.tags, strings(&["b", "c"]));
    assert_eq!(m.created_at, Timestamp { secs: 1_700_000_000, nanos: 5 });
    assert!(m.updated_at.secs > 1_700_000_000);
}

#[test]
fn memo_revise_stamps_the_given_time() {
    let mut m = memo("memo-1", "Old", "old text", None, &[]);
    let later = Timestamp { secs: 1_800_000_000, nanos: 0 };
    m.revise(later, "New".to_string(), "n".to_string(), Some("f".to_string()), strings(&["t"]));
    assert_eq!(m.updated_at, later);
    assert_eq!(m.created_at, Timestamp { secs: 1_700_000_000, nanos: 5 });
    assert_eq!(m.folder_id, Some("f".to_string()));
}

#[test]
fn create_memo_appends() {
    let mut state = empty_state();
    create_memo(&mut state, "One".to_string(), "1".to_string(), None, Vec::new());
    let memos = create_memo(
        &mut state,
        "Two".to_string(),
        "2".to_string(),
        Some("folder".to_string()),
        strings(&["b", "a"]),
    );
    assert_eq!(memos.len(), 2);
    assert_eq!(memos[0].title, "One");
    assert_eq!(memos[1].title, "Two");
    assert_eq!(memos[1].content, "2");
    assert_eq!(memos[1].folder_id, Some("folder".to_string()));
    assert_eq!(memos[1].tags, strings(&["b", "a"]));
    assert_eq!(memos[1].id.len(), 36);
    assert_ne!(memos[0].id, memos[1].id);
    assert_eq!(get_memos(&state).len(), 2);
}

#[test]
fn get_memo_finds_the_first_with_the_identifier() {
    let state = state_with_memos(vec![
        memo("a", "First", "", None, &[]),
        memo("b", "Second", "", None, &[]),
        memo("a", "Third", "", None, &[]),
    ]);
    assert_eq!(get_memo(&state, "a".to_string()).unwrap().title, "First");
    assert_eq!(get_memo(&state, "b".to_string()).unwrap().title, "Second");
    assert!(get_memo(&state, "c".to_string()).is_none());
    assert!(get_memo(&state, String::new()).is_none());
}

#[test]
fn update_memo_overwrites_the_first_match_only() {
    let mut state = state_with_memos(vec![
        memo("a", "First", "x", Some("f"), &["t"]),
        memo("a", "Second", "y", None, &[]),
    ]);
    let memos = update_memo(
        &mut state,
        "a".to_string(),
        "Changed".to_string(),
        "z".to_string(),
        None,
        strings(&["u"]),
    );
    assert_eq!(memos[0].title, "Changed");
    assert_eq!(memos[0].content, "z");
    assert_eq!(memos[0].folder_id, None);
    assert_eq!(memos[0].tags, strings(&["u"]));
    assert_eq!(memos[0].created_at.secs, 1_700_000_000);
    assert!(memos[0].updated_at.secs > 1_700_000_000);
    assert_eq!(memos[1].title, "Second");
    assert_eq!(memos[1].updated_at.secs, 1_700_000_000);
}

#[test]
fn update_memo_of_a_missing_identifier_changes_nothing() {
    let mut state = state_with_memos(vec![memo("a", "First", "x", None, &[])]);
    let memos =
        update_memo(&mut state, "zz".to_string(), "C".to_string(), "z".to_string(), None, Vec::new());
    assert_eq!(memos.len(), 1);
    assert_eq!(memos[0].title, "First");
    assert_eq!(memos[0].updated_at.secs, 1_700_000_000);
}

#[test]
fn delete_memo_removes_every_match() {
    let mut state = state_with_memos(vec![
        memo("a", "1", "", None, &[]),
        memo("b", "2", "", None, &[]),
        memo("a", "3", "", None, &[]),
        memo("c", "4", "", None, &[]),
    ]);
    assert_eq!(ids(&delete_memo(&mut state, "a".to_string())), strings(&["b", "c"]));
    assert_eq!(ids(&delete_memo(&mut state, "nope".to_string())), strings(&["b", "c"]));
    assert_eq!(ids(&delete_memo(&mut state, "c".to_string())), strings(&["b"]));
}

#[test]
fn search_memos_ignores_case_and_looks_everywhere() {
    let state = state_with_memos(vec![
        memo("1", "Shopping List", "milk", None, &[]),
        memo("2", "Notes", "Buy a SHOPPING bag", None, &[]),
        memo("3", "Other", "nothing", None, &["Errands", "shopping"]),
        memo("4", "Other", "nothing", None, &["x"]),
    ]);
    assert_eq!(ids(&search_memos(&state, "shopping".to_string())), strings(&["1", "2", "3"]));
    assert_eq!(ids(&search_memos(&state, "SHOP".to_string())), strings(&["1", "2", "3"]));
    assert_eq!(ids(&search_memos(&state, "errand".to_string())), strings(&["3"]));
    assert_eq!(ids(&search_memos(&state, "milk".to_string())), strings(&["1"]));
    assert_eq!(ids(&search_memos(&state, "absent".to_string())), Vec::<String>::new());
}

#[test]
fn search_memos_for_nothing_finds_everything() {
    let state = state_with_memos(vec![memo("1", "", "", None, &[]), memo("2", "t", "c", None, &["x"])]);
    assert_eq!(search_memos(&state, String::new()).len(), 2);
    assert!(search_memos(&empty_state(), "x".to_string()).is_empty());
}

#[test]
fn search_memos_does_not_join_fields() {
    let state = state_with_memos(vec![memo("1", "ab", "cd", None, &["ef", "gh"])]);
    assert!(search_memos(&state, "bc".to_string()).is_empty());
    assert!(search_memos(&state, "fg".to_string()).is_empty());
    assert_eq!(search_memos(&state, "AB".to_string()).len(), 1);
}

#[test]
fn matching_one_memo() {
    let m = memo("1", "Title", "Content", None, &["Tag"]);
    assert!(matches_search(&m, &chars("itl")));
    assert!(matches_search(&m, &chars("tent")));
    assert!(matches_search(&m, &chars("tag")));
    assert!(!matches_search(&m, &chars("Tag")));
    assert!(!matches_search(&m, &chars("zzz")));
    assert!(tag_holds(&strings(&["One", "TWO"]), &chars("two")));
    assert!(!tag_holds(&strings(&["One", "TWO"]), &chars("three")));
    assert!(!tag_holds(&Vec::new(), &chars("")));
    assert!(holds("Straße", &chars("straße")));
    assert!(holds("ÉCOLE", &chars("école")));
    assert!(!holds("abc", &chars("abcd")));
}

#[test]
fn characters_of_a_text() {
    assert_eq!(characters(""), Vec::<char>::new());
    assert_eq!(characters("abc"), vec!['a', 'b', 'c']);
    assert_eq!(characters("é\u{3000}😀"), vec!['é', '\u{3000}', '😀']);
}

#[test]
fn occurs_finds_a_part_anywhere() {
    assert!(occurs(&chars(""), &chars("")));
    assert!(occurs(&chars(""), &chars("abc")));
    assert!(occurs(&chars("abc"), &chars("abc")));
    assert!(occurs(&chars("ab"), &chars("abc")));
    assert!(occurs(&chars("bc"), &chars("abc")));
    assert!(occurs(&chars("b"), &chars("abc")));
    assert!(occurs(&chars("aab"), &chars("aaab")));
    assert!(occurs(&chars("日本"), &chars("これは日本語")));
    assert!(!occurs(&chars("a"), &chars("")));
    assert!(!occurs(&chars("abcd"), &chars("abc")));
    assert!(!occurs(&chars("ac"), &chars("abc")));
    assert!(!occurs(&chars("ba"), &chars("abc")));
    assert!(!occurs(&chars("B"), &chars("abc")));
}

#[test]
fn stands_before_orders_like_strings() {
    let words = ["", "a", "A", "ab", "abc", "b", "B", "10", "9", "é", "z", "zz", "日本", "😀", "~"];
    for a in words {
        for b in words {
            assert_eq!(stands_before(&chars(a), &chars(b)), a < b, "{:?} {:?}", a, b);
        }
    }
}

#[test]
fn get_all_tags_is_sorted_and_deduplicated() {
    let state = state_with_memos(vec![
        memo("1", "", "", None, &["b", "a"]),
        memo("2", "", "", None, &["a", "c"]),
    ]);
    assert_eq!(get_all_tags(&state), strings(&["a", "b", "c"]));
}

#[test]
fn get_all_tags_orders_by_code_point() {
    let state = state_with_memos(vec![
        memo("1", "", "", None, &["b", "B", "ab", "a", "", "10", "9", "\u{e9}", "z"]),
        memo("2", "", "", None, &[]),
        memo("3", "", "", None, &["a", "abc", "B"]),
    ]);
    assert_eq!(
        get_all_tags(&state),
        strings(&["", "10", "9", "B", "a", "ab", "abc", "b", "z", "\u{e9}"])
    );
}

#[test]
fn get_all_tags_of_no_memos() {
    assert!(get_all_tags(&empty_state()).is_empty());
    let state = state_with_memos(vec![memo("1", "", "", None, &[])]);
    assert!(get_all_tags(&state).is_empty());
}

#[test]
fn insert_ascending_keeps_order_and_skips_what_is_there() {
    let mut sorted: Vec<String> = Vec::new();
    for word in ["m", "a", "z", "m", "b", "a", "zz"] {
        insert_ascending(&mut sorted, word.to_string());
    }
    assert_eq!(sorted, strings(&["a", "b", "m", "z", "zz"]));
    insert_tags(&mut sorted, &strings(&["c", "a", "y"]));
    assert_eq!(sorted, strings(&["a", "b", "c", "m", "y", "z", "zz"]));
}

#[test]
fn folders_are_created_and_renamed() {
    let mut state = empty_state();
    create_folder(&mut state, "Inbox".to_string(), None);
    let parent = state.folders[0].id.clone();
    let folders = create_folder(&mut state, "Sub".to_string(), Some(parent.clone()));
    assert_eq!(folders.len(), 2);
    assert_eq!(folders[0].name, "Inbox");
    assert_eq!(folders[0].parent_id, None);
    assert_eq!(folders[0].id.len(), 36);
    assert_eq!(folders[1].name, "Sub");
    assert_eq!(folders[1].parent_id, Some(parent.clone()));

    let folders = update_folder(&mut state, parent.clone(), "Archive".to_string());
    assert_eq!(folders[0].name, "Archive");
    assert_eq!(folders[0].id, parent);
    assert_eq!(folders[1].name, "Sub");
    let folders = update_folder(&mut state, "missing".to_string(), "X".to_string());
    assert_eq!(folders[0].name, "Archive");
    assert_eq!(get_folders(&state).len(), 2);
}

#[test]
fn delete_folder_keeps_its_memos_without_a_folder() {
    let mut state = state_with_memos(vec![
        memo("M1", "one", "1", Some("F"), &["t"]),
        memo("M2", "two", "2", Some("F"), &[]),
        memo("M3", "three", "3", Some("G"), &[]),
        memo("M4", "four", "4", None, &[]),
    ]);
    state.folders = vec![
        Folder::created("F".to_string(), "First".to_string(), None),
        Folder::created("G".to_string(), "Second".to_string(), Some("F".to_string())),
    ];
    let folders = delete_folder(&mut state, "F".to_string());
    assert_eq!(folders.len(), 1);
    assert_eq!(folders[0].id, "G");
    assert_eq!(folders[0].parent_id, Some("F".to_string()));
    assert_eq!(ids(&state.memos), strings(&["M1", "M2", "M3", "M4"]));
    assert_eq!(state.memos[0].folder_id, None);
    assert_eq!(state.memos[1].folder_id, None);
    assert_eq!(state.memos[2].folder_id, Some("G".to_string()));
    assert_eq!(state.memos[3].folder_id, None);
    assert_eq!(state.memos[0].title, "one");
    assert_eq!(state.memos[0].content, "1");
    assert_eq!(state.memos[0].tags, strings(&["t"]));
    assert_eq!(state.memos[0].updated_at.secs, 1_700_000_000);
}

#[test]
fn delete_folder_that_is_not_there_still_unfiles() {
    let mut state = state_with_memos(vec![memo("M1", "one", "1", Some("gone"), &[])]);
    state.folders = vec![Folder::created("F".to_string(), "First".to_string(), None)];
    let folders = delete_folder(&mut state, "gone".to_string());
    assert_eq!(folders.len(), 1);
    assert_eq!(state.memos[0].folder_id, None);
}
