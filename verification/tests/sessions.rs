use sessionctl::sessions::session_names;

fn entry(name: &str) -> Option<String> {
    Some(name.to_string())
}

#[test]
fn names_of_an_empty_listing_are_empty() {
    let entries: Vec<Option<String>> = Vec::new();
    assert_eq!(session_names(&entries), Vec::<String>::new());
}

#[test]
fn unnamed_entries_are_skipped() {
    let entries = vec![entry("work"), None, entry("chat")];
    assert_eq!(session_names(&entries), vec!["work".to_string(), "chat".to_string()]);
}

#[test]
fn a_listing_without_names_yields_nothing() {
    let entries: Vec<Option<String>> = vec![None, None, None];
    assert!(session_names(&entries).is_empty());
}

#[test]
fn there_are_as_many_names_as_named_entries() {
    let entries = vec![None, entry("a"), entry("b"), None, entry("c"), None];
    let named = entries.iter().filter(|e| e.is_some()).count();
    let names = session_names(&entries);
    assert_eq!(named, 3);
    assert_eq!(names.len(), named);
}

#[test]
fn names_keep_the_order_of_the_listing() {
    let entries = vec![entry("zulu"), None, entry("alpha"), entry("mike"), None];
    assert_eq!(
        session_names(&entries),
        vec!["zulu".to_string(), "alpha".to_string(), "mike".to_string()]
    );
}

#[test]
fn equal_names_are_all_kept() {
    let entries = vec![entry("x"), entry("x"), None, entry("x")];
    assert_eq!(session_names(&entries), vec!["x".to_string(); 3]);
}

#[test]
fn an_empty_name_is_still_a_name() {
    let entries = vec![entry(""), None];
    assert_eq!(session_names(&entries), vec![String::new()]);
}

#[test]
fn the_listing_is_left_as_it_was() {
    let entries = vec![entry("work"), None];
    let _ = session_names(&entries);
    assert_eq!(entries, vec![entry("work"), None]);
}
