//! Errors that stop the simulation core, and their descriptions.

use vstd::prelude::*;

use crate::message::Message;

verus! {

/// How `std`'s `Debug` formats a string: quoted, with special characters escaped.
pub uninterp spec fn debug_quoted(s: Seq<char>) -> Seq<char>;

/// Formats `s` as `std`'s `Debug` does.
///
/// Calls `format!("{:?}", s)`; its result is named [`debug_quoted`], a function of the
/// string alone.
#[verifier::external_body]
fn debug_str(s: &str) -> (r: String)
    ensures
        r@ == debug_quoted(s@),
{
    format!("{:?}", s)
}

/// How `std`'s `Debug` formats a list of strings: `[`, the quoted strings separated by
/// `, `, and `]`.
pub open spec fn debug_list(items: Seq<Seq<char>>) -> Seq<char> {
    "["@ + debug_items(items) + "]"@
}

/// The quoted strings separated by `, `.
pub open spec fn debug_items(items: Seq<Seq<char>>) -> Seq<char>
    decreases items.len(),
{
    if items.len() == 0 {
        Seq::empty()
    } else if items.len() == 1 {
        debug_quoted(items[0])
    } else {
        debug_items(items.drop_last()) + ", "@ + debug_quoted(items.last())
    }
}

/// Formats a list of strings as `std`'s `Debug` does.
pub fn debug_string_list(items: &Vec<String>) -> (r: String)
    ensures
        r@ == debug_list(items.deep_view()),
{
    let mut s = String::from_str("[");
    let n = items.len();
    let mut i: usize = 0;
    proof {
        reveal_strlit("[");
        reveal_strlit("]");
        reveal_strlit(", ");
    }
    while i < n
        invariant
            n == items.len(),
            0 <= i <= n,
            s@ == "["@ + debug_items(items.deep_view().take(i as int)),
        decreases n - i,
    {
        proof {
            let a = items.deep_view();
            assert(a.take(i + 1).drop_last() =~= a.take(i as int));
            assert(a.take(i + 1).last() == items@[i as int]@);
        }
        if i > 0 {
            s.append(", ");
        }
        let d = debug_str(items[i].as_str());
        s.append(d.as_str());
        proof {
            let a = items.deep_view();
            if i == 0 {
                assert(a.take(1).len() == 1);
            }
            assert(s@ =~= "["@ + debug_items(a.take(i + 1)));
        }
        i = i + 1;
    }
    s.append("]");
    proof {
        assert(items.deep_view().take(n as int) =~= items.deep_view());
    }
    s
}

/// The reason why a message could not be dispatched.
#[derive(Debug)]
pub enum DispatchErrorKind {
    /// the message's source name (first) is not a name of the node that sent it (whose
    /// names are second)
    SourceNameMismatch(String, Vec<String>),
    /// no node has the message's destination name
    DestinationUnknown,
}

/// An error that stops the simulation core.
#[derive(Debug)]
pub enum CoreError {
    /// a message could not be sent into the network or delivered
    DispatchError { name: String, message: Message, kind: DispatchErrorKind },
    /// a node sent a system message without the capability it requires
    IllegalCoreMessage { name: String, message: Message },
    /// a test node did not send its `register` message in time
    MissingRegistration { name: String },
    /// a node that is no test node sent a `register` message
    UnexpectedRegistration { name: String },
    /// a node sent a system message of an unknown type
    UnknownCoreMessage { name: String, ty: String },
    /// a node with the same name exists already
    DuplicateNodeName { name: String },
    /// no command with that name was registered
    UnknownCommand { command_name: String, available_commands: Vec<String> },
    /// no runner with that name was registered
    UnknownRunner { runner_name: String, available_runners: Vec<String> },
    /// a process wrote something to its standard output that is not a message
    SerializeError { source: String, raw_message: String, error: String },
    /// the core has handed out all logical timestamps or node ids it can count
    ClockExhausted,
}

/// The description of a dispatch error.
pub open spec fn describe_kind(kind: DispatchErrorKind) -> Seq<char> {
    match kind {
        DispatchErrorKind::SourceNameMismatch(got, expected) => if expected.len() == 1 {
            "source name does not match source id, expected `"@ + debug_quoted(expected@[0]@) + "`, got `"@
                + debug_quoted(got@) + "`"@
        } else {
            "source name does not match source id, expected one of `"@ + debug_list(expected.deep_view())
                + "`, got `"@ + debug_quoted(got@) + "`"@
        },
        DispatchErrorKind::DestinationUnknown => "destination unknown"@,
    }
}

/// The description of an error; `message_text` is the rendered message of the
/// errors that carry one.
pub open spec fn describe_error(e: CoreError, message_text: Seq<char>) -> Seq<char> {
    match e {
        CoreError::DispatchError { name, kind, .. } => "node `"@ + name@ + "` - dispatch error: "@
            + describe_kind(kind) + "; message: "@ + message_text,
        CoreError::IllegalCoreMessage { name, .. } => "node `"@ + name@
            + "` tried to send a system message without the required capability: "@ + message_text,
        CoreError::MissingRegistration { name } => "node `"@ + name@
            + "` has failed to send a registration message. Are you sure you have specified the correct command?"@,
        CoreError::UnexpectedRegistration { name } => "node `"@ + name@
            + "` has attempted to send a registration message. Are you sure you have specified the correct command?"@,
        CoreError::UnknownCoreMessage { name, ty } => "unknown system message from node `"@ + name@ + "`: "@ + ty@,
        CoreError::DuplicateNodeName { name } => "a node with name `"@ + name@ + "` already exists"@,
        CoreError::UnknownCommand { command_name, available_commands } => "a command with name `"@ + command_name@
            + "` was not registered. Available commands are "@ + debug_list(available_commands.deep_view()),
        CoreError::UnknownRunner { runner_name, available_runners } => "a runner with name `"@ + runner_name@
            + "`. Available runners are "@ + debug_list(available_runners.deep_view()),
        CoreError::SerializeError { source, raw_message, error } => "failed to deserialize message from process `"@
            + source@ + "`: "@ + error@ + " (raw message: "@ + debug_quoted(raw_message@) + ")"@,
        CoreError::ClockExhausted => "the logical clock of the simulation core is exhausted"@,
    }
}

impl DispatchErrorKind {
    /// Describes the error.
    pub fn describe(&self) -> (s: String)
        ensures
            s@ == describe_kind(*self),
    {
        match self {
            DispatchErrorKind::SourceNameMismatch(got, expected) => {
                if expected.len() == 1 {
                    let mut s = String::from_str("source name does not match source id, expected `");
                    let e = debug_str(expected[0].as_str());
                    s.append(e.as_str());
                    s.append("`, got `");
                    let g = debug_str(got.as_str());
                    s.append(g.as_str());
                    s.append("`");
                    proof {
                        reveal_strlit("source name does not match source id, expected `");
                        reveal_strlit("`, got `");
                        reveal_strlit("`");
                    }
                    s
                } else {
                    let mut s = String::from_str("source name does not match source id, expected one of `");
                    let e = debug_string_list(expected);
                    s.append(e.as_str());
                    s.append("`, got `");
                    let g = debug_str(got.as_str());
                    s.append(g.as_str());
                    s.append("`");
                    proof {
                        reveal_strlit("source name does not match source id, expected one of `");
                        reveal_strlit("`, got `");
                        reveal_strlit("`");
                    }
                    s
                }
            },
            DispatchErrorKind::DestinationUnknown => {
                proof {
                    reveal_strlit("destination unknown");
                }
                String::from_str("destination unknown")
            },
        }
    }
}

/// `a`, `b` and `c` joined.
fn join3(a: &str, b: &str, c: &str) -> (s: String)
    ensures
        s@ == a@ + b@ + c@,
{
    let mut s = String::from_str(a);
    s.append(b);
    s.append(c);
    s
}

impl CoreError {
    /// Describes the error; `message_text` is the rendered message of the errors that
    /// carry one (a dispatch error and an illegal core message).
    pub fn describe(&self, message_text: &str) -> (s: String)
        ensures
            s@ == describe_error(*self, message_text@),
    {
        match self {
            CoreError::DispatchError { name, kind, .. } => {
                let mut s = join3("node `", name.as_str(), "` - dispatch error: ");
                let k = kind.describe();
                s.append(k.as_str());
                s.append("; message: ");
                s.append(message_text);
                proof {
                    reveal_strlit("node `");
                    reveal_strlit("` - dispatch error: ");
                    reveal_strlit("; message: ");
                }
                s
            },
            CoreError::IllegalCoreMessage { name, .. } => {
                let mut s = join3("node `", name.as_str(), "` tried to send a system message without the required capability: ");
                s.append(message_text);
                proof {
                    reveal_strlit("node `");
                    reveal_strlit("` tried to send a system message without the required capability: ");
                }
                s
            },
            CoreError::MissingRegistration { name } => {
                proof {
                    reveal_strlit("node `");
                    reveal_strlit("` has failed to send a registration message. Are you sure you have specified the correct command?");
                }
                join3("node `", name.as_str(), "` has failed to send a registration message. Are you sure you have specified the correct command?")
            },
            CoreError::UnexpectedRegistration { name } => {
                proof {
                    reveal_strlit("node `");
                    reveal_strlit("` has attempted to send a registration message. Are you sure you have specified the correct command?");
                }
                join3("node `", name.as_str(), "` has attempted to send a registration message. Are you sure you have specified the correct command?")
            },
            CoreError::UnknownCoreMessage { name, ty } => {
                let mut s = join3("unknown system message from node `", name.as_str(), "`: ");
                s.append(ty.as_str());
                proof {
                    reveal_strlit("unknown system message from node `");
                    reveal_strlit("`: ");
                }
                s
            },
            CoreError::DuplicateNodeName { name } => {
                proof {
                    reveal_strlit("a node with name `");
                    reveal_strlit("` already exists");
                }
                join3("a node with name `", name.as_str(), "` already exists")
            },
            CoreError::UnknownCommand { command_name, available_commands } => {
                let mut s = join3("a command with name `", command_name.as_str(), "` was not registered. Available commands are ");
                let l = debug_string_list(available_commands);
                s.append(l.as_str());
                proof {
                    reveal_strlit("a command with name `");
                    reveal_strlit("` was not registered. Available commands are ");
                }
                s
            },
            CoreError::UnknownRunner { runner_name, available_runners } => {
                let mut s = join3("a runner with name `", runner_name.as_str(), "`. Available runners are ");
                let l = debug_string_list(available_runners);
                s.append(l.as_str());
                proof {
                    reveal_strlit("a runner with name `");
                    reveal_strlit("`. Available runners are ");
                }
                s
            },
            CoreError::SerializeError { source, raw_message, error } => {
                let mut s = join3("failed to deserialize message from process `", source.as_str(), "`: ");
                s.append(error.as_str());
                s.append(" (raw message: ");
                let r = debug_str(raw_message.as_str());
                s.append(r.as_str());
                s.append(")");
                proof {
                    reveal_strlit("failed to deserialize message from process `");
                    reveal_strlit("`: ");
                    reveal_strlit(" (raw message: ");
                    reveal_strlit(")");
                }
                s
            },
            CoreError::ClockExhausted => {
                proof {
                    reveal_strlit("the logical clock of the simulation core is exhausted");
                }
                String::from_str("the logical clock of the simulation core is exhausted")
            },
        }
    }
}

} // verus!
