use sessionctl::picker::{copy_names, pick_request, resolve_selection, Selection, Stream};

fn names(list: &[&str]) -> Vec<String> {
    list.iter().map(|name| name.to_string()).collect()
}

#[test]
fn the_request_offers_the_names_in_order() {
    let request = pick_request(names(&["work", "chat"]));
    assert_eq!(request.items, names(&["work", "chat"]));
}

#[test]
fn the_request_asks_to_select_a_session() {
    let request = pick_request(names(&["work"]));
    assert_eq!(request.prompt, "Select a session");
}

#[test]
fn the_request_highlights_the_first_name() {
    let request = pick_request(names(&["work", "chat", "mail"]));
    assert_eq!(request.default, 0);
}

#[test]
fn the_request_is_drawn_on_the_status_stream() {
    let request = pick_request(names(&["work"]));
    assert_eq!(request.stream, Stream::Status);
    assert_ne!(request.stream, Stream::Output);
}

#[test]
fn an_index_selects_the_name_at_that_index() {
    let offered = names(&["work", "chat", "mail"]);
    assert_eq!(
        resolve_selection(&offered, Some(0)),
        Selection::Chosen { name: "work".to_string() }
    );
    assert_eq!(
        resolve_selection(&offered, Some(1)),
        Selection::Chosen { name: "chat".to_string() }
    );
    assert_eq!(
        resolve_selection(&offered, Some(2)),
        Selection::Chosen { name: "mail".to_string() }
    );
}

#[test]
fn no_index_is_a_cancellation() {
    let offered = names(&["work", "chat"]);
    assert_eq!(resolve_selection(&offered, None), Selection::Cancelled);
}

#[test]
fn every_selection_is_one_of_the_names_offered() {
    let offered = names(&["a", "b", "c", "d"]);
    for index in 0..offered.len() {
        match resolve_selection(&offered, Some(index)) {
            Selection::Chosen { name } => assert!(offered.contains(&name)),
            Selection::Cancelled => panic!("an index was given"),
        }
    }
}

#[test]
fn a_copy_holds_the_same_names() {
    let source = names(&["work", "", "chat"]);
    assert_eq!(copy_names(&source), source);
    assert_eq!(copy_names(&Vec::new()), Vec::<String>::new());
}
