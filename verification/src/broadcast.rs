//! The broadcast cycle: read the registry, take one quote snapshot, render
//! one text, send it to every subscriber, sleep.
//!
//! Like the discovery cycle it is a state machine that the caller drives:
//!
//! ```text
//! Idle → Fetching → Rendering → Sending → Sleeping → Idle
//! ```

use vstd::prelude::*;
use crate::bot::{decoded_entries, loaded, Bot, Fault, RegistryError};
use crate::chat::{Chat, ChatView};
use crate::decimal::{decimal, decimal_text, decimal_value, lemma_decimal_value};
use crate::interval::Interval;
use crate::message::{
    price_message,
    price_text,
    render,
    MessageBody,
    MessageBodyView,
    PraseMode,
    PriceFigures,
    PriceFiguresView,
};
use crate::registry::{entries, unique_ids};

verus! {

/// Where a broadcast cycle stands.
#[derive(Debug, PartialEq, Eq)]
pub enum BroadcastState {
    /// Between two cycles.
    Idle,
    /// Waiting for the stored registry and the quote snapshot.
    Fetching,
    /// Holding the subscribers and the snapshot, the messages not yet made.
    Rendering { registry: Vec<Chat>, figures: PriceFigures },
    /// Waiting for the sends to finish, all of them.
    Sending,
    /// Waiting for the interval to pass.
    Sleeping,
}

/// What the caller reports to the cycle.
#[derive(Debug, PartialEq, Eq)]
pub enum BroadcastEvent {
    /// The last action asked for nothing; go on.
    Resume,
    /// The registry file was read, with this content, which decoded to
    /// `decoded` (`None` where it did not), and every provider gave its quotes.
    Gathered { content: String, decoded: Option<Vec<Chat>>, figures: PriceFigures },
    /// The registry file could not be read.
    LoadFailed,
    /// A provider gave no quotes, or none that decode.
    QuoteFailed,
    /// Every send has finished; `failed` of them without success.
    Delivered { failed: usize },
    /// The interval has passed.
    Woke,
}

/// What the cycle asks of the caller.
#[derive(Debug, PartialEq, Eq)]
pub enum BroadcastAction {
    /// Nothing; report `Resume`.
    Continue,
    /// Read the registry file and ask each provider for its quotes, once.
    Fetch,
    /// Send each of these messages, none waiting for another, and report
    /// when all have finished.
    Send(Vec<MessageBody>),
    /// Report the fault, if there is one, and sleep for the interval.
    Sleep { interval: Interval, fault: Option<Fault> },
    /// End the loop: the registry is beyond use.
    Abort(RegistryError),
    /// Nothing: the state was not waiting for this event, and is unchanged.
    Reject,
}

/// A state, with the views of what it holds.
pub enum BroadcastStateView {
    Idle,
    Fetching,
    Rendering { registry: Seq<ChatView>, figures: PriceFiguresView },
    Sending,
    Sleeping,
}

/// An event, with the views of what it reports.
pub enum BroadcastEventView {
    Resume,
    Gathered { content: Seq<char>, decoded: Option<Seq<ChatView>>, figures: PriceFiguresView },
    LoadFailed,
    QuoteFailed,
    Delivered { failed: nat },
    Woke,
}

/// An action, with the views of what it hands over.
pub enum BroadcastActionView {
    Continue,
    Fetch,
    Send(Seq<MessageBodyView>),
    Sleep { interval: Interval, fault: Option<Fault> },
    Abort(RegistryError),
    Reject,
}

/// The messages of a batch, as their views.
pub open spec fn bodies(batch: Seq<MessageBody>) -> Seq<MessageBodyView> {
    batch.map_values(|m: MessageBody| m@)
}

impl View for BroadcastState {
    type V = BroadcastStateView;

    open spec fn view(&self) -> BroadcastStateView {
        match *self {
            BroadcastState::Idle => BroadcastStateView::Idle,
            BroadcastState::Fetching => BroadcastStateView::Fetching,
            BroadcastState::Rendering { registry, figures } => BroadcastStateView::Rendering {
                registry: entries(registry@),
                figures: figures@,
            },
            BroadcastState::Sending => BroadcastStateView::Sending,
            BroadcastState::Sleeping => BroadcastStateView::Sleeping,
        }
    }
}

impl View for BroadcastEvent {
    type V = BroadcastEventView;

    open spec fn view(&self) -> BroadcastEventView {
        match *self {
            BroadcastEvent::Resume => BroadcastEventView::Resume,
            BroadcastEvent::Gathered { content, decoded, figures } => BroadcastEventView::Gathered {
                content: content@,
                decoded: decoded_entries(decoded),
                figures: figures@,
            },
            BroadcastEvent::LoadFailed => BroadcastEventView::LoadFailed,
            BroadcastEvent::QuoteFailed => BroadcastEventView::QuoteFailed,
            BroadcastEvent::Delivered { failed } => BroadcastEventView::Delivered {
                failed: failed as nat,
            },
            BroadcastEvent::Woke => BroadcastEventView::Woke,
        }
    }
}

impl View for BroadcastAction {
    type V = BroadcastActionView;

    open spec fn view(&self) -> BroadcastActionView {
        match *self {
            BroadcastAction::Continue => BroadcastActionView::Continue,
            BroadcastAction::Fetch => BroadcastActionView::Fetch,
            BroadcastAction::Send(batch) => BroadcastActionView::Send(bodies(batch@)),
            BroadcastAction::Sleep { interval, fault } => BroadcastActionView::Sleep {
                interval,
                fault,
            },
            BroadcastAction::Abort(e) => BroadcastActionView::Abort(e),
            BroadcastAction::Reject => BroadcastActionView::Reject,
        }
    }
}

/// One message for each subscriber, in the registry's order: the same text
/// for all, each addressed to the decimal text of the chat's identity.
pub open spec fn batch(registry: Seq<ChatView>, figures: PriceFiguresView) -> Seq<MessageBodyView> {
    Seq::new(registry.len(), |i: int| price_message(decimal(registry[i].id), figures))
}

/// One step of the broadcast cycle: the state that follows and what is to
/// be done, for a state and the event reported in it.
pub open spec fn broadcast_step(
    interval: Interval,
    state: BroadcastStateView,
    event: BroadcastEventView,
) -> (BroadcastStateView, BroadcastActionView) {
    match (state, event) {
        (BroadcastStateView::Idle, BroadcastEventView::Resume) => (
            BroadcastStateView::Fetching,
            BroadcastActionView::Fetch,
        ),
        (
            BroadcastStateView::Fetching,
            BroadcastEventView::Gathered { content, decoded, figures },
        ) => match loaded(content, decoded) {
            Ok(registry) => (
                BroadcastStateView::Rendering { registry, figures },
                BroadcastActionView::Continue,
            ),
            Err(e) => (BroadcastStateView::Idle, BroadcastActionView::Abort(e)),
        },
        (BroadcastStateView::Fetching, BroadcastEventView::LoadFailed) => (
            BroadcastStateView::Idle,
            BroadcastActionView::Abort(RegistryError::Unreadable),
        ),
        (BroadcastStateView::Fetching, BroadcastEventView::QuoteFailed) => (
            BroadcastStateView::Sleeping,
            BroadcastActionView::Sleep { interval, fault: Some(Fault::Fetch) },
        ),
        (BroadcastStateView::Rendering { registry, figures }, BroadcastEventView::Resume) => (
            BroadcastStateView::Sending,
            BroadcastActionView::Send(batch(registry, figures)),
        ),
        (BroadcastStateView::Sending, BroadcastEventView::Delivered { failed }) => (
            BroadcastStateView::Sleeping,
            BroadcastActionView::Sleep {
                interval,
                fault: if failed == 0 {
                    None
                } else {
                    Some(Fault::Send)
                },
            },
        ),
        (BroadcastStateView::Sleeping, BroadcastEventView::Woke) => (
            BroadcastStateView::Idle,
            BroadcastActionView::Continue,
        ),
        (state, _) => (state, BroadcastActionView::Reject),
    }
}

/// A batch holds one message for each subscriber, in the registry's order:
/// addressed to that subscriber, and with the same text and dialect in all.
/// In a registry no two messages of the batch go to one chat.
pub proof fn lemma_batch(registry: Seq<ChatView>, figures: PriceFiguresView)
    ensures
        batch(registry, figures).len() == registry.len(),
        forall|i: int|
            0 <= i < registry.len() ==> {
                let body = #[trigger] batch(registry, figures)[i];
                &&& decimal_value(body.chat_id) == registry[i].id
                &&& body.text == price_text(figures)
                &&& body.parse_mode == PraseMode::MarkdownV2.text()
            },
        unique_ids(registry) ==> forall|i: int, j: int|
            0 <= i < j < registry.len() ==> batch(registry, figures)[i].chat_id != batch(
                registry,
                figures,
            )[j].chat_id,
{
    assert forall|i: int| 0 <= i < registry.len() implies decimal_value(
        (#[trigger] batch(registry, figures)[i]).chat_id,
    ) == registry[i].id by {
        lemma_decimal_value(registry[i].id);
    }
    if unique_ids(registry) {
        assert forall|i: int, j: int| 0 <= i < j < registry.len() implies batch(
            registry,
            figures,
        )[i].chat_id != batch(registry, figures)[j].chat_id by {
            lemma_decimal_value(registry[i].id);
            lemma_decimal_value(registry[j].id);
        }
    }
}

/// Whatever the state and the event, the messages that a step asks to be
/// sent are the batch of the subscribers and the snapshot that the state held.
pub proof fn lemma_sends_the_batch(
    interval: Interval,
    state: BroadcastStateView,
    event: BroadcastEventView,
)
    ensures
        broadcast_step(interval, state, event).1 matches BroadcastActionView::Send(messages)
            ==> state matches BroadcastStateView::Rendering { registry, figures } && messages
            == batch(registry, figures),
{
}

/// Renders the snapshot once and addresses the text to every subscriber.
pub fn fan_out(registry: &Vec<Chat>, figures: &PriceFigures) -> (messages: Vec<MessageBody>)
    ensures
        bodies(messages@) == batch(entries(registry@), figures@),
{
    let text = render(figures);
    let mut messages: Vec<MessageBody> = Vec::new();
    let mut i: usize = 0;
    while i < registry.len()
        invariant
            i <= registry.len(),
            text@ == price_text(figures@),
            bodies(messages@) == batch(entries(registry@), figures@).take(i as int),
        decreases registry.len() - i,
    {
        let body = MessageBody {
            chat_id: decimal_text(registry[i].id),
            text: text.clone(),
            parse_mode: PraseMode::MarkdownV2.as_text(),
        };
        let ghost sent = messages@;
        assert(body@ == batch(entries(registry@), figures@)[i as int]);
        messages.push(body);
        assert(bodies(messages@) == bodies(sent).push(body@));
        i += 1;
        assert(bodies(messages@) =~= batch(entries(registry@), figures@).take(i as int));
    }
    assert(bodies(messages@) =~= batch(entries(registry@), figures@));
    messages
}

impl Bot {
    /// One step of the broadcast cycle.
    pub fn broadcast_updates(interval: Interval, state: BroadcastState, event: BroadcastEvent) -> (next:
        (BroadcastState, BroadcastAction))
        ensures
            (next.0@, next.1@) == broadcast_step(interval, state@, event@),
    {
        match (state, event) {
            (BroadcastState::Idle, BroadcastEvent::Resume) => (
                BroadcastState::Fetching,
                BroadcastAction::Fetch,
            ),
            (BroadcastState::Fetching, BroadcastEvent::Gathered { content, decoded, figures }) => {
                match Bot::load_bot_data(content.as_str(), decoded) {
                    Ok(registry) => (
                        BroadcastState::Rendering { registry, figures },
                        BroadcastAction::Continue,
                    ),
                    Err(e) => (BroadcastState::Idle, BroadcastAction::Abort(e)),
                }
            },
            (BroadcastState::Fetching, BroadcastEvent::LoadFailed) => (
                BroadcastState::Idle,
                BroadcastAction::Abort(RegistryError::Unreadable),
            ),
            (BroadcastState::Fetching, BroadcastEvent::QuoteFailed) => (
                BroadcastState::Sleeping,
                BroadcastAction::Sleep { interval, fault: Some(Fault::Fetch) },
            ),
            (BroadcastState::Rendering { registry, figures }, BroadcastEvent::Resume) => (
                BroadcastState::Sending,
                BroadcastAction::Send(fan_out(&registry, &figures)),
            ),
            (BroadcastState::Sending, BroadcastEvent::Delivered { failed }) => (
                BroadcastState::Sleeping,
                BroadcastAction::Sleep {
                    interval,
                    fault: if failed == 0 {
                        None
                    } else {
                        Some(Fault::Send)
                    },
                },
            ),
            (BroadcastState::Sleeping, BroadcastEvent::Woke) => (
                BroadcastState::Idle,
                BroadcastAction::Continue,
            ),
            (state, _) => (state, BroadcastAction::Reject),
        }
    }
}

} // verus!
