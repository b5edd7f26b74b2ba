use price_bot::bot::{Bot, Fault, RegistryError};
use price_bot::broadcast::{fan_out, BroadcastAction, BroadcastEvent, BroadcastState};
use price_bot::chat::{Chat, Message, Update};
use price_bot::discovery::{senders_of, DiscoveryAction, DiscoveryEvent, DiscoveryState};
use price_bot::interval::Interval;
use price_bot::message::{render, MessageBody, PriceFigures};

const TEN_MINUTES: Interval = Interval { secs: 600, nanos: 0 };

fn chat(id: i64) -> Chat {
    Chat { id, first_name: None, last_name: None, username: None, chat_type: "private".to_string() }
}

fn event_from(id: i64, update_id: i64) -> Update {
    Update {
        update_id,
        message: Message { message_id: 1, chat: chat(id), date: 0, text: "/start".to_string() },
    }
}

fn figures() -> PriceFigures {
    PriceFigures {
        egp: "49.00".to_string(),
        sar: "3.75".to_string(),
        sar_egp: "13.07".to_string(),
        gold_24k: "1.00".to_string(),
        gold_22k: "2.00".to_string(),
        gold_21k: "3.00".to_string(),
        gold_20k: "4.00".to_string(),
        gold_18k: "5.00".to_string(),
    }
}

/// Runs one discovery cycle on a stored registry and the payloads of one answer,
/// as far as the write, and gives what is to be written.
fn discovered(stored: Vec<Chat>, payloads: Vec<Option<Update>>) -> Vec<Chat> {
    let (state, action) =
        Bot::poll_updates(TEN_MINUTES, DiscoveryState::Idle, DiscoveryEvent::Resume);
    assert_eq!(state, DiscoveryState::Fetching);
    assert_eq!(action, DiscoveryAction::Fetch);
    let content = if stored.is_empty() { "" } else { "[..]" }.to_string();
    let fetched = DiscoveryEvent::Fetched { content, decoded: Some(stored), payloads };
    let (state, action) = Bot::poll_updates(TEN_MINUTES, state, fetched);
    assert!(matches!(state, DiscoveryState::Merging { .. }));
    assert_eq!(action, DiscoveryAction::Continue);
    let (state, action) = Bot::poll_updates(TEN_MINUTES, state, DiscoveryEvent::Resume);
    assert_eq!(state, DiscoveryState::Persisting);
    let records = match action {
        DiscoveryAction::Persist(records) => records,
        other => panic!("{:?}", other),
    };
    let (state, action) = Bot::poll_updates(TEN_MINUTES, state, DiscoveryEvent::Persisted);
    assert_eq!(state, DiscoveryState::Sleeping);
    assert_eq!(action, DiscoveryAction::Sleep { interval: TEN_MINUTES, fault: None });
    let (state, action) = Bot::poll_updates(TEN_MINUTES, state, DiscoveryEvent::Woke);
    assert_eq!(state, DiscoveryState::Idle);
    assert_eq!(action, DiscoveryAction::Continue);
    records
}

#[test]
fn two_discovery_cycles_find_two_chats_and_no_duplicates() {
    let first = discovered(vec![], vec![Some(event_from(42, 1))]);
    assert_eq!(first, vec![chat(42)]);
    let second = discovered(first, vec![Some(event_from(42, 2)), Some(event_from(7, 3))]);
    assert_eq!(second, vec![chat(42), chat(7)]);
}

#[test]
fn a_discovery_cycle_without_events_keeps_the_registry() {
    assert_eq!(discovered(vec![chat(42), chat(7)], vec![]), vec![chat(42), chat(7)]);
}

#[test]
fn a_payload_that_did_not_decode_is_passed_over() {
    let payloads = vec![None, Some(event_from(3, 1)), None, Some(event_from(4, 2)), None];
    assert_eq!(discovered(vec![], payloads), vec![chat(3), chat(4)]);
}

#[test]
fn get_updates_keeps_the_decoded_events_in_order() {
    let payloads = vec![Some(event_from(3, 1)), None, Some(event_from(4, 2))];
    assert_eq!(Bot::get_updates(payloads), vec![event_from(3, 1), event_from(4, 2)]);
    assert_eq!(Bot::get_updates(vec![None, None]), vec![]);
    assert_eq!(Bot::get_updates(vec![]), vec![]);
}

#[test]
fn senders_of_gives_the_chat_of_each_event() {
    assert_eq!(
        senders_of(vec![event_from(3, 1), event_from(4, 2), event_from(3, 3)]),
        vec![chat(3), chat(4), chat(3)]
    );
}

#[test]
fn a_failed_fetch_skips_the_cycle_until_the_next_tick() {
    let (state, action) =
        Bot::poll_updates(TEN_MINUTES, DiscoveryState::Fetching, DiscoveryEvent::FetchFailed);
    assert_eq!(state, DiscoveryState::Sleeping);
    assert_eq!(action, DiscoveryAction::Sleep { interval: TEN_MINUTES, fault: Some(Fault::Fetch) });
}

#[test]
fn a_failed_write_is_reported_before_the_sleep() {
    let (state, action) =
        Bot::poll_updates(TEN_MINUTES, DiscoveryState::Persisting, DiscoveryEvent::PersistFailed);
    assert_eq!(state, DiscoveryState::Sleeping);
    assert_eq!(
        action,
        DiscoveryAction::Sleep { interval: TEN_MINUTES, fault: Some(Fault::Persist) }
    );
}

#[test]
fn a_malformed_registry_ends_the_discovery_loop() {
    let fetched = DiscoveryEvent::Fetched {
        content: "{".to_string(),
        decoded: None,
        payloads: vec![Some(event_from(1, 1))],
    };
    let (state, action) = Bot::poll_updates(TEN_MINUTES, DiscoveryState::Fetching, fetched);
    assert_eq!(state, DiscoveryState::Idle);
    assert_eq!(action, DiscoveryAction::Abort(RegistryError::Malformed));
}

#[test]
fn an_unreadable_registry_ends_the_discovery_loop() {
    let (state, action) =
        Bot::poll_updates(TEN_MINUTES, DiscoveryState::Fetching, DiscoveryEvent::LoadFailed);
    assert_eq!(state, DiscoveryState::Idle);
    assert_eq!(action, DiscoveryAction::Abort(RegistryError::Unreadable));
}

#[test]
fn the_discovery_cycle_rejects_an_event_it_does_not_wait_for() {
    let (state, action) =
        Bot::poll_updates(TEN_MINUTES, DiscoveryState::Idle, DiscoveryEvent::Persisted);
    assert_eq!(state, DiscoveryState::Idle);
    assert_eq!(action, DiscoveryAction::Reject);
    let merging = DiscoveryState::Merging { stored: vec![chat(1)], observed: vec![chat(2)] };
    let (state, action) = Bot::poll_updates(TEN_MINUTES, merging, DiscoveryEvent::Woke);
    assert_eq!(
        state,
        DiscoveryState::Merging { stored: vec![chat(1)], observed: vec![chat(2)] }
    );
    assert_eq!(action, DiscoveryAction::Reject);
    let (state, action) =
        Bot::poll_updates(TEN_MINUTES, DiscoveryState::Sleeping, DiscoveryEvent::Resume);
    assert_eq!(state, DiscoveryState::Sleeping);
    assert_eq!(action, DiscoveryAction::Reject);
}

/// Runs one broadcast cycle as far as the sends and gives the messages.
fn sent(stored: Vec<Chat>) -> Vec<MessageBody> {
    let interval = Interval { secs: 28800, nanos: 0 };
    let (state, action) =
        Bot::broadcast_updates(interval, BroadcastState::Idle, BroadcastEvent::Resume);
    assert_eq!(state, BroadcastState::Fetching);
    assert_eq!(action, BroadcastAction::Fetch);
    let gathered = BroadcastEvent::Gathered {
        content: "[..]".to_string(),
        decoded: Some(stored),
        figures: figures(),
    };
    let (state, action) = Bot::broadcast_updates(interval, state, gathered);
    assert!(matches!(state, BroadcastState::Rendering { .. }));
    assert_eq!(action, BroadcastAction::Continue);
    let (state, action) = Bot::broadcast_updates(interval, state, BroadcastEvent::Resume);
    assert_eq!(state, BroadcastState::Sending);
    let messages = match action {
        BroadcastAction::Send(messages) => messages,
        other => panic!("{:?}", other),
    };
    let (state, action) =
        Bot::broadcast_updates(interval, state, BroadcastEvent::Delivered { failed: 0 });
    assert_eq!(state, BroadcastState::Sleeping);
    assert_eq!(action, BroadcastAction::Sleep { interval, fault: None });
    let (state, action) = Bot::broadcast_updates(interval, state, BroadcastEvent::Woke);
    assert_eq!(state, BroadcastState::Idle);
    assert_eq!(action, BroadcastAction::Continue);
    messages
}

#[test]
fn a_broadcast_cycle_sends_one_message_to_each_subscriber() {
    let messages = sent(vec![chat(42), chat(7)]);
    assert_eq!(messages.len(), 2);
    assert_eq!(messages[0].chat_id, "42");
    assert_eq!(messages[1].chat_id, "7");
    assert_eq!(messages[0].text, messages[1].text);
    assert_eq!(messages[0].text, render(&figures()));
    assert_eq!(messages[0].parse_mode, "MarkdownV2");
    assert_eq!(messages[1].parse_mode, "MarkdownV2");
}

#[test]
fn a_broadcast_cycle_without_subscribers_sends_nothing() {
    assert_eq!(sent(vec![]), vec![]);
}

#[test]
fn a_failed_send_does_not_change_what_the_others_get() {
    let interval = Interval { secs: 1, nanos: 0 };
    let messages = fan_out(&vec![chat(1), chat(2)], &figures());
    assert_eq!(messages[1], MessageBody::new("2", &figures()));
    let (state, action) = Bot::broadcast_updates(
        interval,
        BroadcastState::Sending,
        BroadcastEvent::Delivered { failed: 1 },
    );
    assert_eq!(state, BroadcastState::Sleeping);
    assert_eq!(action, BroadcastAction::Sleep { interval, fault: Some(Fault::Send) });
}

#[test]
fn fan_out_addresses_negative_identities_too() {
    let messages = fan_out(&vec![chat(-1001234567890)], &figures());
    assert_eq!(messages, vec![MessageBody::new("-1001234567890", &figures())]);
}

#[test]
fn a_failed_quote_abandons_the_cycle_without_a_message() {
    let interval = Interval { secs: 28800, nanos: 0 };
    let (state, action) =
        Bot::broadcast_updates(interval, BroadcastState::Fetching, BroadcastEvent::QuoteFailed);
    assert_eq!(state, BroadcastState::Sleeping);
    assert_eq!(action, BroadcastAction::Sleep { interval, fault: Some(Fault::Fetch) });
}

#[test]
fn a_registry_beyond_use_ends_the_broadcast_loop() {
    let interval = Interval { secs: 28800, nanos: 0 };
    let gathered = BroadcastEvent::Gathered {
        content: "not json".to_string(),
        decoded: None,
        figures: figures(),
    };
    let (state, action) = Bot::broadcast_updates(interval, BroadcastState::Fetching, gathered);
    assert_eq!(state, BroadcastState::Idle);
    assert_eq!(action, BroadcastAction::Abort(RegistryError::Malformed));
    let (state, action) =
        Bot::broadcast_updates(interval, BroadcastState::Fetching, BroadcastEvent::LoadFailed);
    assert_eq!(state, BroadcastState::Idle);
    assert_eq!(action, BroadcastAction::Abort(RegistryError::Unreadable));
}

#[test]
fn a_broadcast_over_an_empty_file_reaches_nobody() {
    let interval = Interval { secs: 28800, nanos: 0 };
    let gathered =
        BroadcastEvent::Gathered { content: String::new(), decoded: None, figures: figures() };
    let (state, _) = Bot::broadcast_updates(interval, BroadcastState::Fetching, gathered);
    assert_eq!(state, BroadcastState::Rendering { registry: vec![], figures: figures() });
}

#[test]
fn the_broadcast_cycle_rejects_an_event_it_does_not_wait_for() {
    let interval = Interval { secs: 28800, nanos: 0 };
    let (state, action) =
        Bot::broadcast_updates(interval, BroadcastState::Idle, BroadcastEvent::Woke);
    assert_eq!(state, BroadcastState::Idle);
    assert_eq!(action, BroadcastAction::Reject);
    let (state, action) =
        Bot::broadcast_updates(interval, BroadcastState::Sending, BroadcastEvent::Resume);
    assert_eq!(state, BroadcastState::Sending);
    assert_eq!(action, BroadcastAction::Reject);
}
