//! What the operator sets: how long each cycle sleeps.

use vstd::prelude::*;
use vstd::string::StringExecFns;
use crate::interval::{Interval, IntervalError};

verus! {

/// What keeps the process from starting.
#[derive(Clone, Copy, Debug, PartialEq, Eq, Structural)]
pub enum ConfigError {
    /// No credential for the messaging platform.
    MissingBotToken,
    /// No credential for the exchange-rate provider.
    MissingExchangeRatesToken,
    /// No credential for the gold-price provider.
    MissingGoldToken,
    /// The discovery interval is no interval.
    UpdateInterval(IntervalError),
    /// The broadcast interval is no interval.
    BroadcastInterval(IntervalError),
}

/// The two intervals, as the operator wrote them.
#[derive(Debug, PartialEq, Eq)]
pub struct Args {
    /// How long to wait before the platform is asked again for new chats.
    pub update_iterval: String,
    /// How long to wait before the prices are sent again.
    pub broadcast_interval: String,
}

impl Default for Args {
    /// Ten minutes between discoveries, eight hours between broadcasts.
    fn default() -> (args: Args)
        ensures
            args.update_iterval@ == "10m"@,
            args.broadcast_interval@ == "8h"@,
    {
        Args {
            update_iterval: String::from_str("10m"),
            broadcast_interval: String::from_str("8h"),
        }
    }
}

impl Args {
    /// The intervals that the two texts stand for, or the error of the
    /// first that stands for none.
    pub open spec fn intervals_spec(update: Seq<char>, broadcast: Seq<char>) -> Result<
        (Interval, Interval),
        ConfigError,
    > {
        match Interval::parse_spec(update) {
            Err(e) => Err(ConfigError::UpdateInterval(e)),
            Ok(discovery) => match Interval::parse_spec(broadcast) {
                Err(e) => Err(ConfigError::BroadcastInterval(e)),
                Ok(sending) => Ok((discovery, sending)),
            },
        }
    }

    /// Reads both intervals, the discovery interval first.
    pub fn intervals(&self) -> (r: Result<(Interval, Interval), ConfigError>)
        ensures
            r == Args::intervals_spec(self.update_iterval@, self.broadcast_interval@),
            r matches Ok(pair) ==> pair.0.wf() && pair.1.wf(),
    {
        match Interval::parse(self.update_iterval.as_str()) {
            Err(e) => Err(ConfigError::UpdateInterval(e)),
            Ok(discovery) => match Interval::parse(self.broadcast_interval.as_str()) {
                Err(e) => Err(ConfigError::BroadcastInterval(e)),
                Ok(sending) => Ok((discovery, sending)),
            },
        }
    }
}

} // verus!
