//! A publisher that accepts messages without blocking on the broker, delivers
//! them in order, and retries failed deliveries after a fixed delay.
//!
//! `dispatcher` holds the bounded queue, the retry slot and every decision of
//! the dispatch loop; `message` builds the messages that flow through it;
//! `source` describes where to connect.
pub mod dispatcher;
pub mod message;
pub mod source;

pub use crate::dispatcher::{Action, Dispatcher, QueueError};
pub use crate::message::{BuildError, Message, MessageBuilder, ProducedMessage};
pub use crate::source::{ClientSpec, PubSubType, Pulsar, Source};
