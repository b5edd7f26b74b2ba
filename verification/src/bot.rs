//! The bot's dealings with the outside, as far as they are decisions: where
//! to ask, which inbound events count, and what a registry file holds.

use vstd::prelude::*;
use vstd::string::StringExecFns;
use crate::chat::{Chat, ChatView, Update};
use crate::config::ConfigError;
use crate::registry::{dedup, entries, lemma_dedup, lemma_dedup_unique, merge, unique_ids};

verus! {

/// The bot. It has no state of its own: its functions are decisions on
/// values that the caller read or received.
pub struct Bot;

/// What went wrong in a cycle that is given up until the next one.
#[derive(Clone, Copy, Debug, PartialEq, Eq, Structural)]
pub enum Fault {
    /// A provider or the platform did not answer as it should.
    Fetch,
    /// The registry could not be written; what was observed is lost.
    Persist,
    /// Some recipient did not get the message.
    Send,
}

/// Why a registry file gave no registry.
#[derive(Clone, Copy, Debug, PartialEq, Eq, Structural)]
pub enum RegistryError {
    /// The file could not be read.
    Unreadable,
    /// The file is not empty and does not decode to a sequence of chats.
    Malformed,
}

/// The inbound events among the payloads of one answer, in their order: a
/// payload that did not decode stands as `None` and is passed over.
pub open spec fn decoded_events(payloads: Seq<Option<Update>>) -> Seq<Update>
    decreases payloads.len(),
{
    if payloads.len() == 0 {
        Seq::empty()
    } else {
        let before = decoded_events(payloads.drop_last());
        match payloads.last() {
            Some(update) => before.push(update),
            None => before,
        }
    }
}

/// The chats from which a run of events came, in the events' order.
pub open spec fn senders(updates: Seq<Update>) -> Seq<ChatView> {
    updates.map_values(|u: Update| u.message.chat@)
}

/// What a registry file holds: nothing where it is empty, else one record
/// for each identity of what it decodes to.
pub open spec fn loaded(content: Seq<char>, decoded: Option<Seq<ChatView>>) -> Result<
    Seq<ChatView>,
    RegistryError,
> {
    if content.len() == 0 {
        Ok(Seq::empty())
    } else {
        match decoded {
            Some(records) => Ok(dedup(records)),
            None => Err(RegistryError::Malformed),
        }
    }
}

/// The records that a decoder made of a file, as their views.
pub open spec fn decoded_entries(decoded: Option<Vec<Chat>>) -> Option<Seq<ChatView>> {
    match decoded {
        Some(records) => Some(entries(records@)),
        None => None,
    }
}

/// The address of the messaging platform for the bot with this credential.
pub open spec fn platform_endpoint(token: Seq<char>) -> Seq<char> {
    "https://api.telegram.org/bot"@ + token
}

/// The address of the latest exchange rates for this credential.
pub open spec fn rates_endpoint(token: Seq<char>) -> Seq<char> {
    "https://openexchangerates.org/api/latest.json?app_id="@ + token
}

/// The address of the gold price, in US dollars for the ounce and the gram.
pub open spec fn gold_endpoint() -> Seq<char> {
    "https://www.goldapi.io/api/XAU/USD"@
}

/// A registry that was written is loaded as it was: a file that is not
/// empty and decodes to a registry holds that registry.
pub proof fn lemma_loaded_registry(content: Seq<char>, records: Seq<ChatView>)
    requires
        content.len() > 0,
        unique_ids(records),
    ensures
        loaded(content, Some(records)) == Ok::<Seq<ChatView>, RegistryError>(records),
{
    lemma_dedup_unique(records);
}

/// What is loaded is a registry: no identity occurs twice in it.
pub proof fn lemma_loaded_unique(content: Seq<char>, decoded: Option<Seq<ChatView>>)
    ensures
        loaded(content, decoded) matches Ok(records) ==> unique_ids(records),
{
    if content.len() > 0 {
        if let Some(records) = decoded {
            lemma_dedup(records);
        }
    }
}

impl Bot {
    /// The two addresses that carry a credential, the platform's first. A
    /// missing credential is an error, the platform's before the provider's.
    pub fn get_endpoints(bot_auth_token: Option<&str>, exchange_rate_token: Option<&str>) -> (r:
        Result<(String, String), ConfigError>)
        ensures
            match (bot_auth_token, exchange_rate_token) {
                (Some(bot), Some(rates)) => r matches Ok(pair) && pair.0@ == platform_endpoint(
                    bot@,
                ) && pair.1@ == rates_endpoint(rates@),
                (None, _) => r == Err::<(String, String), ConfigError>(
                    ConfigError::MissingBotToken,
                ),
                (Some(_), None) => r == Err::<(String, String), ConfigError>(
                    ConfigError::MissingExchangeRatesToken,
                ),
            },
    {
        match bot_auth_token {
            None => Err(ConfigError::MissingBotToken),
            Some(bot) => match exchange_rate_token {
                None => Err(ConfigError::MissingExchangeRatesToken),
                Some(rates) => {
                    let mut platform = String::from_str("https://api.telegram.org/bot");
                    platform.append(bot);
                    let mut provider = String::from_str(
                        "https://openexchangerates.org/api/latest.json?app_id=",
                    );
                    provider.append(rates);
                    Ok((platform, provider))
                },
            },
        }
    }

    /// The address of the gold price and the credential to send with the
    /// request, or the error of a missing credential.
    pub fn get_gold_endpoint(gold_api_token: Option<&str>) -> (r: Result<
        (String, String),
        ConfigError,
    >)
        ensures
            match gold_api_token {
                Some(token) => r matches Ok(pair) && pair.0@ == gold_endpoint() && pair.1@
                    == token@,
                None => r == Err::<(String, String), ConfigError>(ConfigError::MissingGoldToken),
            },
    {
        match gold_api_token {
            Some(token) => Ok(
                (String::from_str("https://www.goldapi.io/api/XAU/USD"), String::from_str(token)),
            ),
            None => Err(ConfigError::MissingGoldToken),
        }
    }

    /// The address at which the platform hands out the pending events.
    pub fn get_updates_endpoint(platform: &str) -> (address: String)
        ensures
            address@ == platform@ + "/getUpdates"@,
    {
        let mut address = String::from_str(platform);
        address.append("/getUpdates");
        address
    }

    /// The address at which the platform takes a message.
    pub fn send_message_endpoint(platform: &str) -> (address: String)
        ensures
            address@ == platform@ + "/sendMessage"@,
    {
        let mut address = String::from_str(platform);
        address.append("/sendMessage");
        address
    }

    /// The inbound events of one answer: every payload that decoded, in the
    /// order of arrival.
    pub fn get_updates(payloads: Vec<Option<Update>>) -> (updates: Vec<Update>)
        ensures
            updates@ == decoded_events(payloads@),
    {
        let mut updates: Vec<Update> = Vec::new();
        let ghost all = payloads@;
        for payload in it: payloads
            invariant
                it.seq() == all,
                updates@ == decoded_events(all.take(it.index())),
        {
            assert(all.take(it.index() + 1).drop_last() == all.take(it.index()));
            match payload {
                Some(update) => {
                    updates.push(update);
                },
                None => {},
            }
        }
        assert(all.take(all.len() as int) == all);
        updates
    }

    /// The registry that a file holds, from the file's text and from what a
    /// decoder made of it (`None` where it failed).
    pub fn load_bot_data(content: &str, decoded: Option<Vec<Chat>>) -> (r: Result<
        Vec<Chat>,
        RegistryError,
    >)
        ensures
            match loaded(content@, decoded_entries(decoded)) {
                Ok(records) => r matches Ok(chats) && entries(chats@) == records && unique_ids(
                    records,
                ),
                Err(e) => r matches Err(f) && f == e,
            },
    {
        if content.is_empty() {
            let none: Vec<Chat> = Vec::new();
            assert(entries(none@) =~= Seq::<ChatView>::empty());
            Ok(none)
        } else {
            match decoded {
                Some(records) => {
                    proof {
                        lemma_dedup(entries(records@));
                        assert(entries(Seq::<Chat>::empty()) + entries(records@) =~= entries(
                            records@,
                        ));
                    }
                    Ok(merge(Vec::new(), records))
                },
                None => Err(RegistryError::Malformed),
            }
        }
    }
}

} // verus!
