//! Decision logic of a price-notification bot: the subscriber registry, the
//! discovery and broadcast cycles, and the text of the outgoing message.

pub mod bot;
pub mod broadcast;
pub mod chat;
pub mod config;
pub mod decimal;
pub mod discovery;
pub mod interval;
pub mod message;
pub mod registry;
pub mod strings;
