//! The events that the core publishes to its subscribers.

use vstd::prelude::*;

use crate::message::{LogMessage, Message};
use crate::timestamp::Timestamp;

verus! {

/// What happened.
#[derive(Debug)]
pub enum EventKind {
    /// the simulation (re)started
    Reset,
    /// a node (or alias) was launched
    NodeLaunched { name: String, commandline: String },
    /// a message was sent
    SendMessage(Box<Message>),
    /// the message sent at the given logical time was delivered
    DeliverMessage { sent_timestamp: usize },
    /// the message sent at the given logical time was dropped
    DropMessage { sent_timestamp: usize },
    /// a node logged a line
    Log { name: String, message: LogMessage },
    /// a node's process ended, with its exit code unless it was aborted
    NodeDisconnected { name: String, exit_code: Option<i32> },
}

/// An event of the core, stamped with the time it happened.
#[derive(Debug)]
pub struct Event {
    pub timestamp: Timestamp,
    pub kind: EventKind,
}

} // verus!
