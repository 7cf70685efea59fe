use text_resource::accessor::{
    after_create, after_open, after_step, open_or_create, read_all_text, read_username_from_file,
    OpenStep,
};
use text_resource::error::{classify, AccessError, FailureKind, StorageFailure};
use text_resource::store::ResourceStore;

fn failure(kind: FailureKind, detail: &str) -> StorageFailure {
    StorageFailure { kind, detail: detail.to_string() }
}

#[test]
fn missing_resource_is_created_empty_and_read_as_empty() {
    let mut store = ResourceStore::new();
    let opened = open_or_create(&mut store, "greeting", true);
    assert_eq!(opened.unwrap().path, "greeting");
    assert_eq!(read_all_text(&store, "greeting"), Ok(String::new()));
}

#[test]
fn existing_resource_reads_its_contents() {
    let mut store = ResourceStore::new();
    store.put("greeting", "Carol", true);
    assert_eq!(read_all_text(&store, "greeting"), Ok("Carol".to_string()));
}

#[test]
fn reading_missing_resource_is_not_found() {
    let store = ResourceStore::new();
    assert_eq!(read_all_text(&store, "missing"), Err(AccessError::NotFound));
}

#[test]
fn opening_missing_resource_without_creation_is_not_found() {
    let mut store = ResourceStore::new();
    store.put("other", "x", true);
    assert_eq!(open_or_create(&mut store, "missing", false).unwrap_err(), AccessError::NotFound);
    assert_eq!(read_all_text(&store, "missing"), Err(AccessError::NotFound));
}

#[test]
fn opening_existing_resource_keeps_its_contents() {
    let mut store = ResourceStore::new();
    store.put("greeting", "Carol", true);
    assert!(open_or_create(&mut store, "greeting", true).is_ok());
    assert_eq!(read_all_text(&store, "greeting"), Ok("Carol".to_string()));
}

#[test]
fn stored_text_reads_back_exactly() {
    let mut store = ResourceStore::new();
    for text in ["", "one line", "two\nlines\r\n", "ünïcödé ✓"] {
        store.put("note", text, true);
        assert_eq!(read_all_text(&store, "note"), Ok(text.to_string()));
    }
}

#[test]
fn denied_resource_reads_as_permission_denied() {
    let mut store = ResourceStore::new();
    store.put("secret", "hidden", false);
    assert_eq!(read_all_text(&store, "secret"), Err(AccessError::PermissionDenied));
    assert_eq!(
        open_or_create(&mut store, "secret", true).unwrap_err(),
        AccessError::PermissionDenied
    );
    assert_eq!(store.create("secret").unwrap_err().kind, FailureKind::PermissionDenied);
}

#[test]
fn repeated_reads_give_the_same_contents() {
    let mut store = ResourceStore::new();
    store.put("greeting", "Carol", true);
    let first = read_all_text(&store, "greeting");
    let second = read_all_text(&store, "greeting");
    assert_eq!(first, second);
    assert_eq!(first, Ok("Carol".to_string()));
}

#[test]
fn put_replaces_earlier_contents() {
    let mut store = ResourceStore::new();
    store.put("greeting", "Carol", true);
    store.put("greeting", "Dave", true);
    store.put("other", "x", true);
    assert_eq!(read_all_text(&store, "greeting"), Ok("Dave".to_string()));
    store.put("greeting", "Dave", false);
    assert_eq!(read_all_text(&store, "greeting"), Err(AccessError::PermissionDenied));
}

#[test]
fn create_empties_an_existing_resource() {
    let mut store = ResourceStore::new();
    store.put("greeting", "Carol", true);
    assert_eq!(store.create("greeting").unwrap().path, "greeting");
    assert_eq!(read_all_text(&store, "greeting"), Ok(String::new()));
}

#[test]
fn username_is_read_from_hello_txt() {
    let mut store = ResourceStore::new();
    assert_eq!(read_username_from_file(&store), Err(AccessError::NotFound));
    store.put("hello.txt", "ferris", true);
    assert_eq!(read_username_from_file(&store), Ok("ferris".to_string()));
}

#[test]
fn classify_keeps_each_kind() {
    assert_eq!(classify(failure(FailureKind::NotFound, "gone")), AccessError::NotFound);
    assert_eq!(
        classify(failure(FailureKind::PermissionDenied, "no")),
        AccessError::PermissionDenied
    );
    assert_eq!(
        classify(failure(FailureKind::Other, "disk on fire")),
        AccessError::Other("disk on fire".to_string())
    );
}

#[test]
fn after_open_decides_each_case() {
    assert_eq!(after_open::<u8>(Ok(7), false), OpenStep::Ready(7));
    assert_eq!(after_open::<u8>(Err(failure(FailureKind::NotFound, "gone")), true), OpenStep::Create);
    assert_eq!(
        after_open::<u8>(Err(failure(FailureKind::NotFound, "gone")), false),
        OpenStep::Fail(AccessError::NotFound)
    );
    assert_eq!(
        after_open::<u8>(Err(failure(FailureKind::PermissionDenied, "no")), true),
        OpenStep::Fail(AccessError::PermissionDenied)
    );
    assert_eq!(
        after_open::<u8>(Err(failure(FailureKind::Other, "bad")), true),
        OpenStep::Fail(AccessError::Other("bad".to_string()))
    );
}

#[test]
fn failed_creation_is_reported_as_other() {
    assert_eq!(after_create::<u8>(Ok(3)), Ok(3));
    assert_eq!(
        after_create::<u8>(Err(failure(FailureKind::PermissionDenied, "read-only"))),
        Err(AccessError::Other("read-only".to_string()))
    );
}

#[test]
fn after_step_classifies_failures() {
    assert_eq!(after_step(Ok("abc".to_string())), Ok("abc".to_string()));
    assert_eq!(
        after_step::<String>(Err(failure(FailureKind::Other, "interrupted"))),
        Err(AccessError::Other("interrupted".to_string()))
    );
}
