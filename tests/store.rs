use tp_utils::store::{delete_request, DeleteRequest, ErrorKind, PointStore, TpError};
use tp_utils::text::EMPTY_HINT;

fn hint_listing() -> String {
    format!("{}\n", EMPTY_HINT)
}

#[test]
fn set_then_resolve_returns_path() {
    let mut s = PointStore::new();
    assert!(s.set("proj", "/home/bob/projects").is_ok());
    assert_eq!(s.resolve("proj").unwrap(), "/home/bob/projects");
}

#[test]
fn set_same_name_twice_is_refused_and_keeps_first() {
    let mut s = PointStore::new();
    s.set("home", "/usr/alice").unwrap();
    let e = s.set("home", "/tmp").unwrap_err();
    assert_eq!(e.kind(), ErrorKind::AlreadyExists);
    match &e {
        TpError::NameTaken { name, existing_path } => {
            assert_eq!(name, "home");
            assert_eq!(existing_path, "/usr/alice");
        }
        other => panic!("unexpected error {:?}", other),
    }
    assert_eq!(s.resolve("home").unwrap(), "/usr/alice");
    assert_eq!(s.len(), 1);
}

#[test]
fn set_same_path_twice_names_existing_point() {
    let mut s = PointStore::new();
    s.set("home", "/usr/alice").unwrap();
    let e = s.set("alias", "/usr/alice").unwrap_err();
    assert_eq!(e.kind(), ErrorKind::AlreadyExists);
    match &e {
        TpError::PathTaken { path, existing_name } => {
            assert_eq!(path, "/usr/alice");
            assert_eq!(existing_name, "home");
        }
        other => panic!("unexpected error {:?}", other),
    }
    assert!(s.resolve("alias").is_err());
}

#[test]
fn name_refusal_comes_before_path_refusal() {
    let mut s = PointStore::new();
    s.set("a", "/x").unwrap();
    s.set("b", "/y").unwrap();
    let e = s.set("b", "/x").unwrap_err();
    assert!(matches!(e, TpError::NameTaken { .. }));
}

#[test]
fn path_refusal_names_earliest_point() {
    let mut s = PointStore::new();
    assert!(s.load_entry("first".to_string(), "/same"));
    assert!(s.load_entry("second".to_string(), "/same"));
    let e = s.set("third", "/same").unwrap_err();
    match e {
        TpError::PathTaken { existing_name, .. } => assert_eq!(existing_name, "first"),
        other => panic!("unexpected error {:?}", other),
    }
}

#[test]
fn delete_missing_name_is_not_found() {
    let mut s = PointStore::new();
    s.set("home", "/usr/alice").unwrap();
    let e = s.delete("nowhere").unwrap_err();
    assert_eq!(e.kind(), ErrorKind::NotFound);
    assert!(matches!(e, TpError::NotFound { ref name } if name == "nowhere"));
    assert_eq!(s.len(), 1);
}

#[test]
fn resolve_missing_name_is_not_found() {
    let s = PointStore::new();
    let e = s.resolve("home").unwrap_err();
    assert_eq!(e.kind(), ErrorKind::NotFound);
    assert_eq!(e.message(), "Teleport point 'home' not found");
}

#[test]
fn delete_all_then_listing_shows_hint() {
    let mut s = PointStore::new();
    s.set("a", "/x").unwrap();
    s.set("b", "/y").unwrap();
    s.delete_all();
    assert_eq!(s.len(), 0);
    assert_eq!(s.listing(), hint_listing());
}

#[test]
fn home_scenario() {
    let mut s = PointStore::new();
    s.set("home", "/usr/alice").unwrap();
    assert_eq!(s.listing(), "home: /usr/alice\n");
    let e = s.set("home", "/usr/alice").unwrap_err();
    assert!(e.message().contains("/usr/alice"));
    assert_eq!(
        e.message(),
        "Teleport point 'home' already exists and points to '/usr/alice'"
    );
    s.delete("home").unwrap();
    assert_eq!(s.listing(), hint_listing());
}

#[test]
fn listing_keeps_order() {
    let mut s = PointStore::new();
    s.set("b", "/two").unwrap();
    s.set("a", "/one").unwrap();
    assert_eq!(s.listing(), "b: /two\na: /one\n");
}

#[test]
fn empty_listing_is_hint() {
    let s = PointStore::new();
    assert!(s.listing().starts_with("No teleport points have been made."));
    assert!(s.listing().ends_with("tp set \"<name>\"\n"));
}

#[test]
fn load_entry_trims_stored_text() {
    let mut s = PointStore::new();
    assert!(s.load_entry("home".to_string(), "  /usr/alice \n"));
    assert_eq!(s.resolve("home").unwrap(), "/usr/alice");
}

#[test]
fn load_entry_keeps_first_of_a_name() {
    let mut s = PointStore::new();
    assert!(s.load_entry("home".to_string(), "/a"));
    assert!(!s.load_entry("home".to_string(), "/b"));
    assert_eq!(s.len(), 1);
    assert_eq!(s.resolve("home").unwrap(), "/a");
}

#[test]
fn loaded_path_blocks_new_point() {
    let mut s = PointStore::new();
    s.load_entry("home".to_string(), "/usr/alice\n");
    let e = s.set("other", "/usr/alice").unwrap_err();
    assert_eq!(
        e.message(),
        "Teleport point to '/usr/alice' already exists with the name 'home'"
    );
}

#[test]
fn delete_then_set_same_name_again() {
    let mut s = PointStore::new();
    s.set("home", "/a").unwrap();
    s.set("work", "/b").unwrap();
    s.delete("home").unwrap();
    assert_eq!(s.listing(), "work: /b\n");
    s.set("home", "/c").unwrap();
    assert_eq!(s.listing(), "work: /b\nhome: /c\n");
}

#[test]
fn delete_request_cases() {
    assert!(matches!(delete_request(Some("x".to_string()), true), DeleteRequest::All));
    assert!(matches!(delete_request(None, true), DeleteRequest::All));
    assert!(matches!(delete_request(None, false), DeleteRequest::MissingName));
    match delete_request(Some("x".to_string()), false) {
        DeleteRequest::One(n) => assert_eq!(n, "x"),
        _ => panic!("expected one name"),
    }
}
