//! What the core exchanges with the processes that run the nodes.

use vstd::prelude::*;

use crate::message::Message;

verus! {

/// A command that the core sends to a process.
#[derive(Debug)]
pub enum ProcessCommand {
    /// deliver the message to the process (i.e. write it to its standard input)
    Deliver(Message),
    /// shut the process down gracefully (i.e. close its standard input)
    Shutdown,
    /// abort the process by any means necessary
    Abort,
}

/// Something that happened in a process.
#[derive(Debug)]
pub enum ProcessEvent {
    /// a message was written to the process's standard output
    Message(Message),
    /// a log line was written to the process's standard error
    Log(String),
    /// something was written to the standard output that is not a message
    SerializeError { raw_message: String, error: String },
}

/// Something that happened in a process, or the end of the process.
#[derive(Debug)]
pub enum ProcessEventOrExit {
    /// an event happened (a message, a log line, ...)
    Event(ProcessEvent),
    /// the process exited with the given exit code
    Exited(i32),
    /// the process was aborted by the core
    Aborted,
}

/// The error that no runner with the requested name is registered.
#[derive(Clone, Copy, Debug)]
pub struct UnknownRunner;

} // verus!
