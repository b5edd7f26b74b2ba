//! The discovery cycle: fetch the pending events, merge their chats into the
//! stored registry, persist the result, sleep.
//!
//! The cycle is a state machine. The caller performs each action and hands
//! back what came of it as the next event:
//!
//! ```text
//! Idle → Fetching → Merging → Persisting → Sleeping → Idle
//! ```

use vstd::prelude::*;
use crate::bot::{decoded_entries, decoded_events, loaded, senders, Bot, Fault, RegistryError};
use crate::chat::{Chat, ChatView, Update};
use crate::interval::Interval;
use crate::registry::{
    as_map,
    dedup,
    entries,
    knows,
    lemma_dedup,
    lemma_merge_knows,
    merge,
    unique_ids,
};

verus! {

/// Where a discovery cycle stands.
#[derive(Debug, PartialEq, Eq)]
pub enum DiscoveryState {
    /// Between two cycles.
    Idle,
    /// Waiting for the stored registry and the pending events.
    Fetching,
    /// Holding what was stored and what was observed, not yet merged.
    Merging { stored: Vec<Chat>, observed: Vec<Chat> },
    /// Waiting for the registry to be written.
    Persisting,
    /// Waiting for the interval to pass.
    Sleeping,
}

/// What the caller reports to the cycle.
#[derive(Debug, PartialEq, Eq)]
pub enum DiscoveryEvent {
    /// The last action asked for nothing; go on.
    Resume,
    /// The registry file was read, with this content, which decoded to
    /// `decoded` (`None` where it did not), and the platform answered with
    /// these payloads (`None` for one that did not decode).
    Fetched { content: String, decoded: Option<Vec<Chat>>, payloads: Vec<Option<Update>> },
    /// The registry file could not be read.
    LoadFailed,
    /// The platform did not answer, or not with a list of events.
    FetchFailed,
    /// The registry was written.
    Persisted,
    /// The registry could not be written.
    PersistFailed,
    /// The interval has passed.
    Woke,
}

/// What the cycle asks of the caller.
#[derive(Debug, PartialEq, Eq)]
pub enum DiscoveryAction {
    /// Nothing; report `Resume`.
    Continue,
    /// Read the registry file and ask the platform for the pending events.
    Fetch,
    /// Replace the registry file with these records.
    Persist(Vec<Chat>),
    /// Report the fault, if there is one, and sleep for the interval.
    Sleep { interval: Interval, fault: Option<Fault> },
    /// End the loop: the registry is beyond use.
    Abort(RegistryError),
    /// Nothing: the state was not waiting for this event, and is unchanged.
    Reject,
}

/// A state, with the views of what it holds.
pub enum DiscoveryStateView {
    Idle,
    Fetching,
    Merging { stored: Seq<ChatView>, observed: Seq<ChatView> },
    Persisting,
    Sleeping,
}

/// An event, as far as the cycle reads it: of the payloads only the chats
/// of those that decoded.
pub enum DiscoveryEventView {
    Resume,
    Fetched { content: Seq<char>, decoded: Option<Seq<ChatView>>, observed: Seq<ChatView> },
    LoadFailed,
    FetchFailed,
    Persisted,
    PersistFailed,
    Woke,
}

/// An action, with the views of what it hands over.
pub enum DiscoveryActionView {
    Continue,
    Fetch,
    Persist(Seq<ChatView>),
    Sleep { interval: Interval, fault: Option<Fault> },
    Abort(RegistryError),
    Reject,
}

impl View for DiscoveryState {
    type V = DiscoveryStateView;

    open spec fn view(&self) -> DiscoveryStateView {
        match *self {
            DiscoveryState::Idle => DiscoveryStateView::Idle,
            DiscoveryState::Fetching => DiscoveryStateView::Fetching,
            DiscoveryState::Merging { stored, observed } => DiscoveryStateView::Merging {
                stored: entries(stored@),
                observed: entries(observed@),
            },
            DiscoveryState::Persisting => DiscoveryStateView::Persisting,
            DiscoveryState::Sleeping => DiscoveryStateView::Sleeping,
        }
    }
}

impl View for DiscoveryEvent {
    type V = DiscoveryEventView;

    open spec fn view(&self) -> DiscoveryEventView {
        match *self {
            DiscoveryEvent::Resume => DiscoveryEventView::Resume,
            DiscoveryEvent::Fetched { content, decoded, payloads } => DiscoveryEventView::Fetched {
                content: content@,
                decoded: decoded_entries(decoded),
                observed: senders(decoded_events(payloads@)),
            },
            DiscoveryEvent::LoadFailed => DiscoveryEventView::LoadFailed,
            DiscoveryEvent::FetchFailed => DiscoveryEventView::FetchFailed,
            DiscoveryEvent::Persisted => DiscoveryEventView::Persisted,
            DiscoveryEvent::PersistFailed => DiscoveryEventView::PersistFailed,
            DiscoveryEvent::Woke => DiscoveryEventView::Woke,
        }
    }
}

impl View for DiscoveryAction {
    type V = DiscoveryActionView;

    open spec fn view(&self) -> DiscoveryActionView {
        match *self {
            DiscoveryAction::Continue => DiscoveryActionView::Continue,
            DiscoveryAction::Fetch => DiscoveryActionView::Fetch,
            DiscoveryAction::Persist(records) => DiscoveryActionView::Persist(entries(records@)),
            DiscoveryAction::Sleep { interval, fault } => DiscoveryActionView::Sleep {
                interval,
                fault,
            },
            DiscoveryAction::Abort(e) => DiscoveryActionView::Abort(e),
            DiscoveryAction::Reject => DiscoveryActionView::Reject,
        }
    }
}

/// One step of the discovery cycle: the state that follows and what is to
/// be done, for a state and the event reported in it.
pub open spec fn discovery_step(
    interval: Interval,
    state: DiscoveryStateView,
    event: DiscoveryEventView,
) -> (DiscoveryStateView, DiscoveryActionView) {
    match (state, event) {
        (DiscoveryStateView::Idle, DiscoveryEventView::Resume) => (
            DiscoveryStateView::Fetching,
            DiscoveryActionView::Fetch,
        ),
        (
            DiscoveryStateView::Fetching,
            DiscoveryEventView::Fetched { content, decoded, observed },
        ) => match loaded(content, decoded) {
            Ok(stored) => (
                DiscoveryStateView::Merging { stored, observed },
                DiscoveryActionView::Continue,
            ),
            Err(e) => (DiscoveryStateView::Idle, DiscoveryActionView::Abort(e)),
        },
        (DiscoveryStateView::Fetching, DiscoveryEventView::LoadFailed) => (
            DiscoveryStateView::Idle,
            DiscoveryActionView::Abort(RegistryError::Unreadable),
        ),
        (DiscoveryStateView::Fetching, DiscoveryEventView::FetchFailed) => (
            DiscoveryStateView::Sleeping,
            DiscoveryActionView::Sleep { interval, fault: Some(Fault::Fetch) },
        ),
        (DiscoveryStateView::Merging { stored, observed }, DiscoveryEventView::Resume) => (
            DiscoveryStateView::Persisting,
            DiscoveryActionView::Persist(dedup(stored + observed)),
        ),
        (DiscoveryStateView::Persisting, DiscoveryEventView::Persisted) => (
            DiscoveryStateView::Sleeping,
            DiscoveryActionView::Sleep { interval, fault: None },
        ),
        (DiscoveryStateView::Persisting, DiscoveryEventView::PersistFailed) => (
            DiscoveryStateView::Sleeping,
            DiscoveryActionView::Sleep { interval, fault: Some(Fault::Persist) },
        ),
        (DiscoveryStateView::Sleeping, DiscoveryEventView::Woke) => (
            DiscoveryStateView::Idle,
            DiscoveryActionView::Continue,
        ),
        (state, _) => (state, DiscoveryActionView::Reject),
    }
}

/// What a cycle writes, from what it fetched: a registry, of the chats that
/// were stored or observed and of no others, with the last record given for
/// each. Where the stored registry cannot be loaded the cycle ends the loop.
pub proof fn lemma_discovery_cycle(
    interval: Interval,
    content: Seq<char>,
    decoded: Option<Seq<ChatView>>,
    observed: Seq<ChatView>,
)
    ensures
        ({
            let fetched = DiscoveryEventView::Fetched { content, decoded, observed };
            let merging = discovery_step(interval, DiscoveryStateView::Fetching, fetched);
            let written = discovery_step(interval, merging.0, DiscoveryEventView::Resume);
            match loaded(content, decoded) {
                Ok(stored) => {
                    &&& merging.1 == DiscoveryActionView::Continue
                    &&& written.0 == DiscoveryStateView::Persisting
                    &&& written.1 matches DiscoveryActionView::Persist(records)
                    &&& unique_ids(records)
                    &&& as_map(records) == as_map(stored + observed)
                    &&& forall|id: int|
                        knows(records, id) <==> knows(stored, id) || knows(observed, id)
                },
                Err(e) => merging == (DiscoveryStateView::Idle, DiscoveryActionView::Abort(e)),
            }
        }),
{
    match loaded(content, decoded) {
        Ok(stored) => {
            lemma_dedup(stored + observed);
            assert forall|id: int|
                knows(dedup(stored + observed), id) <==> knows(stored, id) || knows(
                    observed,
                    id,
                ) by {
                lemma_merge_knows(stored, observed, id);
            }
        },
        Err(_) => {},
    }
}

/// Whatever the state and the event, what a step asks to be written is a
/// registry: no identity occurs twice in it.
pub proof fn lemma_persists_a_registry(
    interval: Interval,
    state: DiscoveryStateView,
    event: DiscoveryEventView,
)
    ensures
        discovery_step(interval, state, event).1 matches DiscoveryActionView::Persist(records)
            ==> unique_ids(records),
{
    match (state, event) {
        (DiscoveryStateView::Merging { stored, observed }, DiscoveryEventView::Resume) => {
            lemma_dedup(stored + observed);
        },
        _ => {},
    }
}

/// The chats from which a run of events came.
pub fn senders_of(updates: Vec<Update>) -> (chats: Vec<Chat>)
    ensures
        entries(chats@) == senders(updates@),
{
    let mut chats: Vec<Chat> = Vec::new();
    let ghost all = updates@;
    for update in it: updates
        invariant
            it.seq() == all,
            entries(chats@) == senders(all.take(it.index())),
    {
        let ghost before = chats@;
        assert(all.take(it.index() + 1) == all.take(it.index()).push(update));
        chats.push(update.message.chat);
        assert(entries(chats@) == entries(before).push(update.message.chat@));
        assert(senders(all.take(it.index()).push(update)) == senders(
            all.take(it.index()),
        ).push(update.message.chat@));
    }
    assert(all.take(all.len() as int) == all);
    chats
}

impl Bot {
    /// One step of the discovery cycle.
    pub fn poll_updates(interval: Interval, state: DiscoveryState, event: DiscoveryEvent) -> (next:
        (DiscoveryState, DiscoveryAction))
        ensures
            (next.0@, next.1@) == discovery_step(interval, state@, event@),
    {
        match (state, event) {
            (DiscoveryState::Idle, DiscoveryEvent::Resume) => (
                DiscoveryState::Fetching,
                DiscoveryAction::Fetch,
            ),
            (DiscoveryState::Fetching, DiscoveryEvent::Fetched { content, decoded, payloads }) => {
                let observed = senders_of(Bot::get_updates(payloads));
                match Bot::load_bot_data(content.as_str(), decoded) {
                    Ok(stored) => (
                        DiscoveryState::Merging { stored, observed },
                        DiscoveryAction::Continue,
                    ),
                    Err(e) => (DiscoveryState::Idle, DiscoveryAction::Abort(e)),
                }
            },
            (DiscoveryState::Fetching, DiscoveryEvent::LoadFailed) => (
                DiscoveryState::Idle,
                DiscoveryAction::Abort(RegistryError::Unreadable),
            ),
            (DiscoveryState::Fetching, DiscoveryEvent::FetchFailed) => (
                DiscoveryState::Sleeping,
                DiscoveryAction::Sleep { interval, fault: Some(Fault::Fetch) },
            ),
            (DiscoveryState::Merging { stored, observed }, DiscoveryEvent::Resume) => (
                DiscoveryState::Persisting,
                DiscoveryAction::Persist(merge(stored, observed)),
            ),
            (DiscoveryState::Persisting, DiscoveryEvent::Persisted) => (
                DiscoveryState::Sleeping,
                DiscoveryAction::Sleep { interval, fault: None },
            ),
            (DiscoveryState::Persisting, DiscoveryEvent::PersistFailed) => (
                DiscoveryState::Sleeping,
                DiscoveryAction::Sleep { interval, fault: Some(Fault::Persist) },
            ),
            (DiscoveryState::Sleeping, DiscoveryEvent::Woke) => (
                DiscoveryState::Idle,
                DiscoveryAction::Continue,
            ),
            (state, _) => (state, DiscoveryAction::Reject),
        }
    }
}

} // verus!
