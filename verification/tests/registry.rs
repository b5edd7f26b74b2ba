use price_bot::bot::{Bot, RegistryError};
use price_bot::chat::Chat;
use price_bot::registry::{find, merge, observe, observe_all};

fn chat(id: i64, name: &str) -> Chat {
    Chat {
        id,
        first_name: Some(name.to_string()),
        last_name: None,
        username: None,
        chat_type: "private".to_string(),
    }
}

#[test]
fn observe_adds_an_unknown_chat_at_the_end() {
    let mut records = vec![chat(1, "a")];
    observe(&mut records, chat(2, "b"));
    assert_eq!(records, vec![chat(1, "a"), chat(2, "b")]);
}

#[test]
fn observe_overwrites_a_known_chat_in_place() {
    let mut records = vec![chat(1, "a"), chat(2, "b"), chat(3, "c")];
    observe(&mut records, chat(2, "renamed"));
    assert_eq!(records, vec![chat(1, "a"), chat(2, "renamed"), chat(3, "c")]);
}

#[test]
fn observing_the_same_event_twice_is_observing_it_once() {
    let mut once = vec![chat(5, "e")];
    observe(&mut once, chat(42, "x"));
    let mut twice = vec![chat(5, "e")];
    observe(&mut twice, chat(42, "x"));
    observe(&mut twice, chat(42, "x"));
    assert_eq!(once, twice);
}

#[test]
fn merging_the_same_events_twice_is_merging_them_once() {
    let events = || vec![chat(42, "x"), chat(7, "y"), chat(42, "z")];
    let once = merge(vec![chat(5, "e")], events());
    let twice = merge(merge(vec![chat(5, "e")], events()), events());
    assert_eq!(once, twice);
    assert_eq!(once, vec![chat(5, "e"), chat(42, "z"), chat(7, "y")]);
}

#[test]
fn merge_keeps_the_last_record_of_each_identity() {
    let merged = merge(
        vec![chat(1, "old"), chat(2, "two")],
        vec![chat(3, "three"), chat(1, "new"), chat(3, "latest")],
    );
    assert_eq!(merged, vec![chat(1, "new"), chat(2, "two"), chat(3, "latest")]);
}

#[test]
fn merge_of_nothing_is_nothing() {
    assert_eq!(merge(vec![], vec![]), Vec::<Chat>::new());
}

#[test]
fn merge_removes_duplicates_of_the_stored_registry_too() {
    let merged = merge(vec![chat(1, "a"), chat(1, "b")], vec![]);
    assert_eq!(merged, vec![chat(1, "b")]);
}

#[test]
fn merge_never_forgets_a_chat() {
    let merged = merge(vec![chat(1, "a"), chat(2, "b")], vec![chat(3, "c")]);
    for id in [1, 2, 3] {
        assert!(find(&merged, id) < merged.len());
    }
}

#[test]
fn observe_all_takes_the_chats_in_order() {
    let mut records = vec![];
    observe_all(&mut records, vec![chat(9, "a"), chat(8, "b"), chat(9, "c")]);
    assert_eq!(records, vec![chat(9, "c"), chat(8, "b")]);
}

#[test]
fn find_gives_the_first_index_or_the_length() {
    let records = vec![chat(4, "a"), chat(6, "b"), chat(4, "c")];
    assert_eq!(find(&records, 4), 0);
    assert_eq!(find(&records, 6), 1);
    assert_eq!(find(&records, 5), 3);
    assert_eq!(find(&vec![], 5), 0);
}

#[test]
fn an_empty_file_is_an_empty_registry() {
    assert_eq!(Bot::load_bot_data("", None), Ok(vec![]));
    assert_eq!(Bot::load_bot_data("", Some(vec![chat(1, "a")])), Ok(vec![]));
}

#[test]
fn a_file_that_does_not_decode_is_malformed() {
    assert_eq!(Bot::load_bot_data("{", None), Err(RegistryError::Malformed));
    assert_eq!(Bot::load_bot_data(" ", None), Err(RegistryError::Malformed));
}

#[test]
fn a_well_formed_file_is_loaded_as_it_is() {
    let stored = vec![chat(42, "x"), chat(7, "y")];
    assert_eq!(Bot::load_bot_data("[..]", Some(stored.clone())), Ok(stored));
    assert_eq!(Bot::load_bot_data("[]", Some(vec![])), Ok(vec![]));
}

#[test]
fn a_file_with_a_repeated_identity_is_loaded_without_it() {
    let stored = vec![chat(42, "x"), chat(7, "y"), chat(42, "z")];
    assert_eq!(Bot::load_bot_data("[..]", Some(stored)), Ok(vec![chat(42, "z"), chat(7, "y")]));
}

#[test]
fn a_clone_of_a_chat_equals_it() {
    let chat = Chat {
        id: -100,
        first_name: Some("A".to_string()),
        last_name: Some("B".to_string()),
        username: None,
        chat_type: "group".to_string(),
    };
    assert_eq!(chat.clone(), chat);
}
