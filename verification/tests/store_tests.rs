use pastebin::pages::render_not_found_page;
use pastebin::paste::Paste;
use pastebin::store::MemStore;

fn is_alphanumeric_ascii(c: char) -> bool {
    ('A'..='Z').contains(&c) || ('a'..='z').contains(&c) || ('0'..='9').contains(&c)
}

#[test]
fn upload_then_fetch_returns_content_verbatim() {
    let mut store = MemStore::new();
    let id = store.upload(String::from("hello world")).expect("valid content must be accepted");
    assert_eq!(id.chars().count(), 20);
    assert!(id.chars().all(is_alphanumeric_ascii));
    let page = store.fetch(&id);
    assert!(page.contains("hello world"));
}

#[test]
fn upload_rejects_single_character() {
    let mut store = MemStore::new();
    assert!(store.upload(String::from("x")).is_none());
}

#[test]
fn upload_rejects_empty_content() {
    let mut store = MemStore::new();
    assert!(store.upload(String::new()).is_none());
}

#[test]
fn rejected_upload_writes_nothing() {
    let mut store = MemStore::new();
    let kept = store.upload(String::from("kept paste")).expect("valid content must be accepted");
    assert!(store.upload(String::from("x")).is_none());
    assert!(store.upload(String::new()).is_none());
    // The store still holds exactly the accepted paste: fetching it works,
    // and no identifier that a rejected upload could have minted resolves.
    assert!(store.fetch(&kept).contains("kept paste"));
    assert_eq!(store.fetch(&String::from("x")), render_not_found_page());
}

#[test]
fn fetch_unknown_id_renders_not_found() {
    let store = MemStore::new();
    let page = store.fetch(&String::from("doesnotexist"));
    assert_eq!(page, render_not_found_page());
    assert!(page.contains("paste not found"));
}

#[test]
fn repeated_fetch_is_identical() {
    let mut store = MemStore::new();
    let id = store.upload(String::from("stable content")).expect("valid content must be accepted");
    let first = store.fetch(&id);
    let second = store.fetch(&id);
    let third = store.fetch(&id);
    assert_eq!(first, second);
    assert_eq!(second, third);
}

#[test]
fn find_by_id_returns_matching_paste() {
    let mut store = MemStore::new();
    let id = store.upload(String::from("find me")).expect("valid content must be accepted");
    let found = store.find_by_id(&id).expect("the stored paste must be found");
    assert_eq!(found.id, id);
    assert_eq!(found.content, "find me");
}

#[test]
fn duplicate_ids_keep_both_entries_and_lookup_takes_the_first() {
    let mut store = MemStore::new();
    let id = String::from("AAAAAAAAAAAAAAAAAAAA");
    store.insert(Paste { id: id.clone(), content: String::from("first body") });
    store.insert(Paste { id: id.clone(), content: String::from("second body") });
    let found = store.find_by_id(&id).expect("a matching paste must be found");
    assert_eq!(found.content, "first body");
    assert!(store.fetch(&id).contains("first body"));
}

#[test]
fn fetch_finds_each_of_several_pastes() {
    let mut store = MemStore::new();
    let a = store.upload(String::from("alpha body")).expect("valid content must be accepted");
    let b = store.upload(String::from("beta body")).expect("valid content must be accepted");
    assert!(store.fetch(&a).contains("alpha body"));
    assert!(store.fetch(&b).contains("beta body"));
}
