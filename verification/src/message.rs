//! The messages that nodes exchange through the simulation core, with the system
//! messages that the core understands.

use vstd::prelude::*;

use crate::event::{Event, EventKind};
use crate::log_color::LogMarkerColor;
use crate::text::str_eq;
use crate::types;

verus! {

/// A marker shown in front of a log line.
#[derive(Debug)]
pub struct LogMarker {
    pub label: String,
    pub color: Option<LogMarkerColor>,
}

/// A log line that a node sends to the core.
#[derive(Debug)]
pub struct LogMessage {
    pub text: String,
    pub marker: Option<LogMarker>,
}

/// A message that controls the execution of the core.
#[derive(Clone, Copy, PartialEq, Eq, Structural, Debug)]
pub enum Control {
    /// pause the delivery of messages
    Break,
    /// deliver a single message, then pause again
    Step,
    /// resume the delivery of messages
    Resume,
    /// deliver the message sent at the given logical time
    Deliver { sent_timestamp: usize },
    /// drop the message sent at the given logical time
    Drop { sent_timestamp: usize },
    /// shut all nodes down
    Shutdown,
}

/// Whether a monitored message was sent or delivered.
#[derive(Clone, Copy, PartialEq, Eq, Structural, Debug)]
pub enum MonitorEventKind {
    Sent,
    Delivered,
}

/// The notice of a monitored message.
#[derive(Debug)]
pub struct MonitorEvent {
    pub kind: MonitorEventKind,
    pub timestamp_logical: usize,
    pub timestamp_physical: i64,
    pub in_reference_to: Option<usize>,
    pub message: Box<Message>,
}

/// The fields of a message body besides its type and ids.
#[derive(Debug)]
pub enum Payload {
    /// sent to a node after it was launched
    Init { name: String, core_name: String, core_version: String },
    /// asks the core for a timer of the given length
    Timer { name: String, millis: u64 },
    /// a timer has expired
    TimerExpired { name: String },
    /// a log line for the core
    Log(LogMessage),
    /// a test node tells the core that it is one
    Register,
    /// resets all nodes and aliases that the sender launched or registered
    Reset,
    /// a reset has finished
    ResetFinished,
    /// launches a node from a registered command
    Launch { name: String, command_name: String, request_exited_message: bool },
    /// a launch (or alias) has finished, possibly with an error
    LaunchFinished { error: Option<String> },
    /// registers an alias for the sender
    Alias { name: String },
    /// monitors the messages between the matching nodes
    BeginMonitor { src_match: String, dst_match: String },
    /// a monitored message was sent or delivered
    MonitorEvent(MonitorEvent),
    /// a launched node has exited
    Exited { name: String, exit_code: i32 },
    /// pauses the core in interactive mode
    Break,
    /// controls the core's execution
    Control(Control),
    /// subscribes to all events of the core
    SubscribeEvents,
    /// an event of the core
    PublishEvent(Event),
    /// any other body; its fields as JSON text
    Other(String),
}

/// The body of a [`Message`]: its type, its optional id, the id of the message it
/// replies to and its further fields.
#[derive(Debug)]
pub struct MessageBody {
    pub ty: String,
    pub id: Option<usize>,
    pub in_reply_to: Option<usize>,
    pub payload: Payload,
}

/// A message sent from the node named `src` to the node named `dest`.
#[derive(Debug)]
pub struct Message {
    pub src: String,
    pub dest: String,
    pub body: MessageBody,
}

/// The type name of a system payload.
pub open spec fn payload_type(p: Payload) -> Seq<char> {
    match p {
        Payload::Init { .. } => types::INIT@,
        Payload::Timer { .. } => types::TIMER@,
        Payload::TimerExpired { .. } => types::TIMER_EXPIRED@,
        Payload::Log(_) => types::LOG@,
        Payload::Register => types::REGISTER@,
        Payload::Reset => types::RESET@,
        Payload::ResetFinished => types::RESET_FINISHED@,
        Payload::Launch { .. } => types::LAUNCH@,
        Payload::LaunchFinished { .. } => types::LAUNCH_FINISHED@,
        Payload::Alias { .. } => types::ALIAS@,
        Payload::BeginMonitor { .. } => types::BEGIN_MONITOR@,
        Payload::MonitorEvent(_) => types::MONITOR_EVENT@,
        Payload::Exited { .. } => types::EXITED@,
        Payload::Break => types::BREAK@,
        Payload::Control(_) => types::CONTROL@,
        Payload::SubscribeEvents => types::SUBSCRIBE_EVENTS@,
        Payload::PublishEvent(_) => types::PUBLISH_EVENT@,
        Payload::Other(_) => Seq::empty(),
    }
}

/// The position of a payload's variant in the list of variants; `Other` comes last.
pub open spec fn payload_kind(p: Payload) -> nat {
    match p {
        Payload::Init { .. } => 0,
        Payload::Timer { .. } => 1,
        Payload::TimerExpired { .. } => 2,
        Payload::Log(_) => 3,
        Payload::Register => 4,
        Payload::Reset => 5,
        Payload::ResetFinished => 6,
        Payload::Launch { .. } => 7,
        Payload::LaunchFinished { .. } => 8,
        Payload::Alias { .. } => 9,
        Payload::BeginMonitor { .. } => 10,
        Payload::MonitorEvent(_) => 11,
        Payload::Exited { .. } => 12,
        Payload::Break => 13,
        Payload::Control(_) => 14,
        Payload::SubscribeEvents => 15,
        Payload::PublishEvent(_) => 16,
        Payload::Other(_) => 17,
    }
}

/// Each payload has the type name of its own kind (an `init` payload has the type
/// `init`, a timer-expired payload `timer_expired`, ...), a payload kept as text has an
/// empty type, and two system payloads of different kinds never share a type name.
pub proof fn lemma_payload_types()
    ensures
        forall|p: Payload| p is Init ==> #[trigger] payload_type(p) == "init"@,
        forall|p: Payload| p is Timer ==> #[trigger] payload_type(p) == "timer"@,
        forall|p: Payload| p is TimerExpired ==> #[trigger] payload_type(p) == "timer_expired"@,
        forall|p: Payload| p is Log ==> #[trigger] payload_type(p) == "log"@,
        forall|p: Payload| p is Register ==> #[trigger] payload_type(p) == "register"@,
        forall|p: Payload| p is Reset ==> #[trigger] payload_type(p) == "reset"@,
        forall|p: Payload| p is ResetFinished ==> #[trigger] payload_type(p) == "reset_finished"@,
        forall|p: Payload| p is Launch ==> #[trigger] payload_type(p) == "launch"@,
        forall|p: Payload| p is LaunchFinished ==> #[trigger] payload_type(p) == "launch_finished"@,
        forall|p: Payload| p is Alias ==> #[trigger] payload_type(p) == "alias"@,
        forall|p: Payload| p is BeginMonitor ==> #[trigger] payload_type(p) == "begin_monitor"@,
        forall|p: Payload| p is MonitorEvent ==> #[trigger] payload_type(p) == "monitor_event"@,
        forall|p: Payload| p is Exited ==> #[trigger] payload_type(p) == "exited"@,
        forall|p: Payload| p is Break ==> #[trigger] payload_type(p) == "break"@,
        forall|p: Payload| p is Control ==> #[trigger] payload_type(p) == "control"@,
        forall|p: Payload| p is SubscribeEvents ==> #[trigger] payload_type(p) == "subscribe_events"@,
        forall|p: Payload| p is PublishEvent ==> #[trigger] payload_type(p) == "publish_event"@,
        forall|p: Payload| p is Other ==> #[trigger] payload_type(p) == Seq::<char>::empty(),
        forall|p: Payload, q: Payload| !(p is Other) && !(q is Other) && #[trigger] payload_type(p) == #[trigger] payload_type(q) ==> payload_kind(p) == payload_kind(q),
{
    reveal_strlit("init");
    reveal_strlit("timer");
    reveal_strlit("timer_expired");
    reveal_strlit("log");
    reveal_strlit("register");
    reveal_strlit("reset");
    reveal_strlit("reset_finished");
    reveal_strlit("launch");
    reveal_strlit("launch_finished");
    reveal_strlit("alias");
    reveal_strlit("begin_monitor");
    reveal_strlit("monitor_event");
    reveal_strlit("exited");
    reveal_strlit("break");
    reveal_strlit("control");
    reveal_strlit("subscribe_events");
    reveal_strlit("publish_event");
    assert("timer"@ != "init"@) by { assert("timer"@.len() != "init"@.len()); }
    assert("timer_expired"@ != "init"@) by { assert("timer_expired"@.len() != "init"@.len()); }
    assert("timer_expired"@ != "timer"@) by { assert("timer_expired"@.len() != "timer"@.len()); }
    assert("log"@ != "init"@) by { assert("log"@.len() != "init"@.len()); }
    assert("log"@ != "timer"@) by { assert("log"@.len() != "timer"@.len()); }
    assert("log"@ != "timer_expired"@) by { assert("log"@.len() != "timer_expired"@.len()); }
    assert("register"@ != "init"@) by { assert("register"@.len() != "init"@.len()); }
    assert("register"@ != "timer"@) by { assert("register"@.len() != "timer"@.len()); }
    assert("register"@ != "timer_expired"@) by { assert("register"@.len() != "timer_expired"@.len()); }
    assert("register"@ != "log"@) by { assert("register"@.len() != "log"@.len()); }
    assert("reset"@ != "init"@) by { assert("reset"@.len() != "init"@.len()); }
    assert("reset"@ != "timer"@) by { assert("reset"@[0] != "timer"@[0]); }
    assert("reset"@ != "timer_expired"@) by { assert("reset"@.len() != "timer_expired"@.len()); }
    assert("reset"@ != "log"@) by { assert("reset"@.len() != "log"@.len()); }
    assert("reset"@ != "register"@) by { assert("reset"@.len() != "register"@.len()); }
    assert("reset_finished"@ != "init"@) by { assert("reset_finished"@.len() != "init"@.len()); }
    assert("reset_finished"@ != "timer"@) by { assert("reset_finished"@.len() != "timer"@.len()); }
    assert("reset_finished"@ != "timer_expired"@) by { assert("reset_finished"@.len() != "timer_expired"@.len()); }
    assert("reset_finished"@ != "log"@) by { assert("reset_finished"@.len() != "log"@.len()); }
    assert("reset_finished"@ != "register"@) by { assert("reset_finished"@.len() != "register"@.len()); }
    assert("reset_finished"@ != "reset"@) by { assert("reset_finished"@.len() != "reset"@.len()); }
    assert("launch"@ != "init"@) by { assert("launch"@.len() != "init"@.len()); }
    assert("launch"@ != "timer"@) by { assert("launch"@.len() != "timer"@.len()); }
    assert("launch"@ != "timer_expired"@) by { assert("launch"@.len() != "timer_expired"@.len()); }
    assert("launch"@ != "log"@) by { assert("launch"@.len() != "log"@.len()); }
    assert("launch"@ != "register"@) by { assert("launch"@.len() != "register"@.len()); }
    assert("launch"@ != "reset"@) by { assert("launch"@.len() != "reset"@.len()); }
    assert("launch"@ != "reset_finished"@) by { assert("launch"@.len() != "reset_finished"@.len()); }
    assert("launch_finished"@ != "init"@) by { assert("launch_finished"@.len() != "init"@.len()); }
    assert("launch_finished"@ != "timer"@) by { assert("launch_finished"@.len() != "timer"@.len()); }
    assert("launch_finished"@ != "timer_expired"@) by { assert("launch_finished"@.len() != "timer_expired"@.len()); }
    assert("launch_finished"@ != "log"@) by { assert("launch_finished"@.len() != "log"@.len()); }
    assert("launch_finished"@ != "register"@) by { assert("launch_finished"@.len() != "register"@.len()); }
    assert("launch_finished"@ != "reset"@) by { assert("launch_finished"@.len() != "reset"@.len()); }
    assert("launch_finished"@ != "reset_finished"@) by { assert("launch_finished"@.len() != "reset_finished"@.len()); }
    assert("launch_finished"@ != "launch"@) by { assert("launch_finished"@.len() != "launch"@.len()); }
    assert("alias"@ != "init"@) by { assert("alias"@.len() != "init"@.len()); }
    assert("alias"@ != "timer"@) by { assert("alias"@[0] != "timer"@[0]); }
    assert("alias"@ != "timer_expired"@) by { assert("alias"@.len() != "timer_expired"@.len()); }
    assert("alias"@ != "log"@) by { assert("alias"@.len() != "log"@.len()); }
    assert("alias"@ != "register"@) by { assert("alias"@.len() != "register"@.len()); }
    assert("alias"@ != "reset"@) by { assert("alias"@[0] != "reset"@[0]); }
    assert("alias"@ != "reset_finished"@) by { assert("alias"@.len() != "reset_finished"@.len()); }
    assert("alias"@ != "launch"@) by { assert("alias"@.len() != "launch"@.len()); }
    assert("alias"@ != "launch_finished"@) by { assert("alias"@.len() != "launch_finished"@.len()); }
    assert("begin_monitor"@ != "init"@) by { assert("begin_monitor"@.len() != "init"@.len()); }
    assert("begin_monitor"@ != "timer"@) by { assert("begin_monitor"@.len() != "timer"@.len()); }
    assert("begin_monitor"@ != "timer_expired"@) by { assert("begin_monitor"@[0] != "timer_expired"@[0]); }
    assert("begin_monitor"@ != "log"@) by { assert("begin_monitor"@.len() != "log"@.len()); }
    assert("begin_monitor"@ != "register"@) by { assert("begin_monitor"@.len() != "register"@.len()); }
    assert("begin_monitor"@ != "reset"@) by { assert("begin_monitor"@.len() != "reset"@.len()); }
    assert("begin_monitor"@ != "reset_finished"@) by { assert("begin_monitor"@.len() != "reset_finished"@.len()); }
    assert("begin_monitor"@ != "launch"@) by { assert("begin_monitor"@.len() != "launch"@.len()); }
    assert("begin_monitor"@ != "launch_finished"@) by { assert("begin_monitor"@.len() != "launch_finished"@.len()); }
    assert("begin_monitor"@ != "alias"@) by { assert("begin_monitor"@.len() != "alias"@.len()); }
    assert("monitor_event"@ != "init"@) by { assert("monitor_event"@.len() != "init"@.len()); }
    assert("monitor_event"@ != "timer"@) by { assert("monitor_event"@.len() != "timer"@.len()); }
    assert("monitor_event"@ != "timer_expired"@) by { assert("monitor_event"@[0] != "timer_expired"@[0]); }
    assert("monitor_event"@ != "log"@) by { assert("monitor_event"@.len() != "log"@.len()); }
    assert("monitor_event"@ != "register"@) by { assert("monitor_event"@.len() != "register"@.len()); }
    assert("monitor_event"@ != "reset"@) by { assert("monitor_event"@.len() != "reset"@.len()); }
    assert("monitor_event"@ != "reset_finished"@) by { assert("monitor_event"@.len() != "reset_finished"@.len()); }
    assert("monitor_event"@ != "launch"@) by { assert("monitor_event"@.len() != "launch"@.len()); }
    assert("monitor_event"@ != "launch_finished"@) by { assert("monitor_event"@.len() != "launch_finished"@.len()); }
    assert("monitor_event"@ != "alias"@) by { assert("monitor_event"@.len() != "alias"@.len()); }
    assert("monitor_event"@ != "begin_monitor"@) by { assert("monitor_event"@[0] != "begin_monitor"@[0]); }
    assert("exited"@ != "init"@) by { assert("exited"@.len() != "init"@.len()); }
    assert("exited"@ != "timer"@) by { assert("exited"@.len() != "timer"@.len()); }
    assert("exited"@ != "timer_expired"@) by { assert("exited"@.len() != "timer_expired"@.len()); }
    assert("exited"@ != "log"@) by { assert("exited"@.len() != "log"@.len()); }
    assert("exited"@ != "register"@) by { assert("exited"@.len() != "register"@.len()); }
    assert("exited"@ != "reset"@) by { assert("exited"@.len() != "reset"@.len()); }
    assert("exited"@ != "reset_finished"@) by { assert("exited"@.len() != "reset_finished"@.len()); }
    assert("exited"@ != "launch"@) by { assert("exited"@[0] != "launch"@[0]); }
    assert("exited"@ != "launch_finished"@) by { assert("exited"@.len() != "launch_finished"@.len()); }
    assert("exited"@ != "alias"@) by { assert("exited"@.len() != "alias"@.len()); }
    assert("exited"@ != "begin_monitor"@) by { assert("exited"@.len() != "begin_monitor"@.len()); }
    assert("exited"@ != "monitor_event"@) by { assert("exited"@.len() != "monitor_event"@.len()); }
    assert("break"@ != "init"@) by { assert("break"@.len() != "init"@.len()); }
    assert("break"@ != "timer"@) by { assert("break"@[0] != "timer"@[0]); }
    assert("break"@ != "timer_expired"@) by { assert("break"@.len() != "timer_expired"@.len()); }
    assert("break"@ != "log"@) by { assert("break"@.len() != "log"@.len()); }
    assert("break"@ != "register"@) by { assert("break"@.len() != "register"@.len()); }
    assert("break"@ != "reset"@) by { assert("break"@[0] != "reset"@[0]); }
    assert("break"@ != "reset_finished"@) by { assert("break"@.len() != "reset_finished"@.len()); }
    assert("break"@ != "launch"@) by { assert("break"@.len() != "launch"@.len()); }
    assert("break"@ != "launch_finished"@) by { assert("break"@.len() != "launch_finished"@.len()); }
    assert("break"@ != "alias"@) by { assert("break"@[0] != "alias"@[0]); }
    assert("break"@ != "begin_monitor"@) by { assert("break"@.len() != "begin_monitor"@.len()); }
    assert("break"@ != "monitor_event"@) by { assert("break"@.len() != "monitor_event"@.len()); }
    assert("break"@ != "exited"@) by { assert("break"@.len() != "exited"@.len()); }
    assert("control"@ != "init"@) by { assert("control"@.len() != "init"@.len()); }
    assert("control"@ != "timer"@) by { assert("control"@.len() != "timer"@.len()); }
    assert("control"@ != "timer_expired"@) by { assert("control"@.len() != "timer_expired"@.len()); }
    assert("control"@ != "log"@) by { assert("control"@.len() != "log"@.len()); }
    assert("control"@ != "register"@) by { assert("control"@.len() != "register"@.len()); }
    assert("control"@ != "reset"@) by { assert("control"@.len() != "reset"@.len()); }
    assert("control"@ != "reset_finished"@) by { assert("control"@.len() != "reset_finished"@.len()); }
    assert("control"@ != "launch"@) by { assert("control"@.len() != "launch"@.len()); }
    assert("control"@ != "launch_finished"@) by { assert("control"@.len() != "launch_finished"@.len()); }
    assert("control"@ != "alias"@) by { assert("control"@.len() != "alias"@.len()); }
    assert("control"@ != "begin_monitor"@) by { assert("control"@.len() != "begin_monitor"@.len()); }
    assert("control"@ != "monitor_event"@) by { assert("control"@.len() != "monitor_event"@.len()); }
    assert("control"@ != "exited"@) by { assert("control"@.len() != "exited"@.len()); }
    assert("control"@ != "break"@) by { assert("control"@.len() != "break"@.len()); }
    assert("subscribe_events"@ != "init"@) by { assert("subscribe_events"@.len() != "init"@.len()); }
    assert("subscribe_events"@ != "timer"@) by { assert("subscribe_events"@.len() != "timer"@.len()); }
    assert("subscribe_events"@ != "timer_expired"@) by { assert("subscribe_events"@.len() != "timer_expired"@.len()); }
    assert("subscribe_events"@ != "log"@) by { assert("subscribe_events"@.len() != "log"@.len()); }
    assert("subscribe_events"@ != "register"@) by { assert("subscribe_events"@.len() != "register"@.len()); }
    assert("subscribe_events"@ != "reset"@) by { assert("subscribe_events"@.len() != "reset"@.len()); }
    assert("subscribe_events"@ != "reset_finished"@) by { assert("subscribe_events"@.len() != "reset_finished"@.len()); }
    assert("subscribe_events"@ != "launch"@) by { assert("subscribe_events"@.len() != "launch"@.len()); }
    assert("subscribe_events"@ != "launch_finished"@) by { assert("subscribe_events"@.len() != "launch_finished"@.len()); }
    assert("subscribe_events"@ != "alias"@) by { assert("subscribe_events"@.len() != "alias"@.len()); }
    assert("subscribe_events"@ != "begin_monitor"@) by { assert("subscribe_events"@.len() != "begin_monitor"@.len()); }
    assert("subscribe_events"@ != "monitor_event"@) by { assert("subscribe_events"@.len() != "monitor_event"@.len()); }
    assert("subscribe_events"@ != "exited"@) by { assert("subscribe_events"@.len() != "exited"@.len()); }
    assert("subscribe_events"@ != "break"@) by { assert("subscribe_events"@.len() != "break"@.len()); }
    assert("subscribe_events"@ != "control"@) by { assert("subscribe_events"@.len() != "control"@.len()); }
    assert("publish_event"@ != "init"@) by { assert("publish_event"@.len() != "init"@.len()); }
    assert("publish_event"@ != "timer"@) by { assert("publish_event"@.len() != "timer"@.len()); }
    assert("publish_event"@ != "timer_expired"@) by { assert("publish_event"@[0] != "timer_expired"@[0]); }
    assert("publish_event"@ != "log"@) by { assert("publish_event"@.len() != "log"@.len()); }
    assert("publish_event"@ != "register"@) by { assert("publish_event"@.len() != "register"@.len()); }
    assert("publish_event"@ != "reset"@) by { assert("publish_event"@.len() != "reset"@.len()); }
    assert("publish_event"@ != "reset_finished"@) by { assert("publish_event"@.len() != "reset_finished"@.len()); }
    assert("publish_event"@ != "launch"@) by { assert("publish_event"@.len() != "launch"@.len()); }
    assert("publish_event"@ != "launch_finished"@) by { assert("publish_event"@.len() != "launch_finished"@.len()); }
    assert("publish_event"@ != "alias"@) by { assert("publish_event"@.len() != "alias"@.len()); }
    assert("publish_event"@ != "begin_monitor"@) by { assert("publish_event"@[0] != "begin_monitor"@[0]); }
    assert("publish_event"@ != "monitor_event"@) by { assert("publish_event"@[0] != "monitor_event"@[0]); }
    assert("publish_event"@ != "exited"@) by { assert("publish_event"@.len() != "exited"@.len()); }
    assert("publish_event"@ != "break"@) by { assert("publish_event"@.len() != "break"@.len()); }
    assert("publish_event"@ != "control"@) by { assert("publish_event"@.len() != "control"@.len()); }
    assert("publish_event"@ != "subscribe_events"@) by { assert("publish_event"@.len() != "subscribe_events"@.len()); }
    assert forall|p: Payload, q: Payload| !(p is Other) && !(q is Other) && #[trigger] payload_type(p) == #[trigger] payload_type(q)
        implies payload_kind(p) == payload_kind(q) by {
    }
}

/// The type name of a system payload.
pub fn type_of(p: &Payload) -> (s: &'static str)
    ensures
        s@ == payload_type(*p),
        *p is Init ==> s@ == "init"@,
        *p is Timer ==> s@ == "timer"@,
        *p is TimerExpired ==> s@ == "timer_expired"@,
        *p is Log ==> s@ == "log"@,
        *p is Register ==> s@ == "register"@,
        *p is Reset ==> s@ == "reset"@,
        *p is ResetFinished ==> s@ == "reset_finished"@,
        *p is Launch ==> s@ == "launch"@,
        *p is LaunchFinished ==> s@ == "launch_finished"@,
        *p is Alias ==> s@ == "alias"@,
        *p is BeginMonitor ==> s@ == "begin_monitor"@,
        *p is MonitorEvent ==> s@ == "monitor_event"@,
        *p is Exited ==> s@ == "exited"@,
        *p is Break ==> s@ == "break"@,
        *p is Control ==> s@ == "control"@,
        *p is SubscribeEvents ==> s@ == "subscribe_events"@,
        *p is PublishEvent ==> s@ == "publish_event"@,
{
    proof {
        lemma_payload_types();
    }
    match p {
        Payload::Init { .. } => types::INIT,
        Payload::Timer { .. } => types::TIMER,
        Payload::TimerExpired { .. } => types::TIMER_EXPIRED,
        Payload::Log(_) => types::LOG,
        Payload::Register => types::REGISTER,
        Payload::Reset => types::RESET,
        Payload::ResetFinished => types::RESET_FINISHED,
        Payload::Launch { .. } => types::LAUNCH,
        Payload::LaunchFinished { .. } => types::LAUNCH_FINISHED,
        Payload::Alias { .. } => types::ALIAS,
        Payload::BeginMonitor { .. } => types::BEGIN_MONITOR,
        Payload::MonitorEvent(_) => types::MONITOR_EVENT,
        Payload::Exited { .. } => types::EXITED,
        Payload::Break => types::BREAK,
        Payload::Control(_) => types::CONTROL,
        Payload::SubscribeEvents => types::SUBSCRIBE_EVENTS,
        Payload::PublishEvent(_) => types::PUBLISH_EVENT,
        Payload::Other(_) => {
            proof {
                reveal_strlit("");
            }
            ""
        },
    }
}

/// The type of a request that the core handles, whose fields it reads.
pub open spec fn is_request_type(ty: Seq<char>) -> bool {
    ||| ty == types::TIMER@
    ||| ty == types::LOG@
    ||| ty == types::REGISTER@
    ||| ty == types::RESET@
    ||| ty == types::LAUNCH@
    ||| ty == types::ALIAS@
    ||| ty == types::BEGIN_MONITOR@
    ||| ty == types::BREAK@
    ||| ty == types::CONTROL@
    ||| ty == types::SUBSCRIBE_EVENTS@
}

/// The requests that the core handles are the timer, log, registration, reset, launch,
/// alias, monitor, break, control and subscription messages; the messages that the core
/// sends (`init`, `timer_expired`, `launch_finished`, `exited`, `monitor_event`,
/// `reset_finished`, `publish_event`) and the empty type are none of them.
pub proof fn lemma_request_types()
    ensures
        is_request_type("timer"@),
        is_request_type("log"@),
        is_request_type("register"@),
        is_request_type("reset"@),
        is_request_type("launch"@),
        is_request_type("alias"@),
        is_request_type("begin_monitor"@),
        is_request_type("break"@),
        is_request_type("control"@),
        is_request_type("subscribe_events"@),
        !is_request_type("init"@),
        !is_request_type("timer_expired"@),
        !is_request_type("launch_finished"@),
        !is_request_type("exited"@),
        !is_request_type("monitor_event"@),
        !is_request_type("reset_finished"@),
        !is_request_type("publish_event"@),
        !is_request_type(""@),
{
    reveal_strlit("timer");
    reveal_strlit("log");
    reveal_strlit("register");
    reveal_strlit("reset");
    reveal_strlit("launch");
    reveal_strlit("alias");
    reveal_strlit("begin_monitor");
    reveal_strlit("break");
    reveal_strlit("control");
    reveal_strlit("subscribe_events");
    reveal_strlit("init");
    reveal_strlit("timer_expired");
    reveal_strlit("launch_finished");
    reveal_strlit("exited");
    reveal_strlit("monitor_event");
    reveal_strlit("reset_finished");
    reveal_strlit("publish_event");
    reveal_strlit("");
    assert("init"@ != "timer"@) by { assert("init"@.len() != "timer"@.len()); }
    assert("init"@ != "log"@) by { assert("init"@.len() != "log"@.len()); }
    assert("init"@ != "register"@) by { assert("init"@.len() != "register"@.len()); }
    assert("init"@ != "reset"@) by { assert("init"@.len() != "reset"@.len()); }
    assert("init"@ != "launch"@) by { assert("init"@.len() != "launch"@.len()); }
    assert("init"@ != "alias"@) by { assert("init"@.len() != "alias"@.len()); }
    assert("init"@ != "begin_monitor"@) by { assert("init"@.len() != "begin_monitor"@.len()); }
    assert("init"@ != "break"@) by { assert("init"@.len() != "break"@.len()); }
    assert("init"@ != "control"@) by { assert("init"@.len() != "control"@.len()); }
    assert("init"@ != "subscribe_events"@) by { assert("init"@.len() != "subscribe_events"@.len()); }
    assert("timer_expired"@ != "timer"@) by { assert("timer_expired"@.len() != "timer"@.len()); }
    assert("timer_expired"@ != "log"@) by { assert("timer_expired"@.len() != "log"@.len()); }
    assert("timer_expired"@ != "register"@) by { assert("timer_expired"@.len() != "register"@.len()); }
    assert("timer_expired"@ != "reset"@) by { assert("timer_expired"@.len() != "reset"@.len()); }
    assert("timer_expired"@ != "launch"@) by { assert("timer_expired"@.len() != "launch"@.len()); }
    assert("timer_expired"@ != "alias"@) by { assert("timer_expired"@.len() != "alias"@.len()); }
    assert("timer_expired"@ != "begin_monitor"@) by { assert("timer_expired"@[0] != "begin_monitor"@[0]); }
    assert("timer_expired"@ != "break"@) by { assert("timer_expired"@.len() != "break"@.len()); }
    assert("timer_expired"@ != "control"@) by { assert("timer_expired"@.len() != "control"@.len()); }
    assert("timer_expired"@ != "subscribe_events"@) by { assert("timer_expired"@.len() != "subscribe_events"@.len()); }
    assert("launch_finished"@ != "timer"@) by { assert("launch_finished"@.len() != "timer"@.len()); }
    assert("launch_finished"@ != "log"@) by { assert("launch_finished"@.len() != "log"@.len()); }
    assert("launch_finished"@ != "register"@) by { assert("launch_finished"@.len() != "register"@.len()); }
    assert("launch_finished"@ != "reset"@) by { assert("launch_finished"@.len() != "reset"@.len()); }
    assert("launch_finished"@ != "launch"@) by { assert("launch_finished"@.len() != "launch"@.len()); }
    assert("launch_finished"@ != "alias"@) by { assert("launch_finished"@.len() != "alias"@.len()); }
    assert("launch_finished"@ != "begin_monitor"@) by { assert("launch_finished"@.len() != "begin_monitor"@.len()); }
    assert("launch_finished"@ != "break"@) by { assert("launch_finished"@.len() != "break"@.len()); }
    assert("launch_finished"@ != "control"@) by { assert("launch_finished"@.len() != "control"@.len()); }
    assert("launch_finished"@ != "subscribe_events"@) by { assert("launch_finished"@.len() != "subscribe_events"@.len()); }
    assert("exited"@ != "timer"@) by { assert("exited"@.len() != "timer"@.len()); }
    assert("exited"@ != "log"@) by { assert("exited"@.len() != "log"@.len()); }
    assert("exited"@ != "register"@) by { assert("exited"@.len() != "register"@.len()); }
    assert("exited"@ != "reset"@) by { assert("exited"@.len() != "reset"@.len()); }
    assert("exited"@ != "launch"@) by { assert("exited"@[0] != "launch"@[0]); }
    assert("exited"@ != "alias"@) by { assert("exited"@.len() != "alias"@.len()); }
    assert("exited"@ != "begin_monitor"@) by { assert("exited"@.len() != "begin_monitor"@.len()); }
    assert("exited"@ != "break"@) by { assert("exited"@.len() != "break"@.len()); }
    assert("exited"@ != "control"@) by { assert("exited"@.len() != "control"@.len()); }
    assert("exited"@ != "subscribe_events"@) by { assert("exited"@.len() != "subscribe_events"@.len()); }
    assert("monitor_event"@ != "timer"@) by { assert("monitor_event"@.len() != "timer"@.len()); }
    assert("monitor_event"@ != "log"@) by { assert("monitor_event"@.len() != "log"@.len()); }
    assert("monitor_event"@ != "register"@) by { assert("monitor_event"@.len() != "register"@.len()); }
    assert("monitor_event"@ != "reset"@) by { assert("monitor_event"@.len() != "reset"@.len()); }
    assert("monitor_event"@ != "launch"@) by { assert("monitor_event"@.len() != "launch"@.len()); }
    assert("monitor_event"@ != "alias"@) by { assert("monitor_event"@.len() != "alias"@.len()); }
    assert("monitor_event"@ != "begin_monitor"@) by { assert("monitor_event"@[0] != "begin_monitor"@[0]); }
    assert("monitor_event"@ != "break"@) by { assert("monitor_event"@.len() != "break"@.len()); }
    assert("monitor_event"@ != "control"@) by { assert("monitor_event"@.len() != "control"@.len()); }
    assert("monitor_event"@ != "subscribe_events"@) by { assert("monitor_event"@.len() != "subscribe_events"@.len()); }
    assert("reset_finished"@ != "timer"@) by { assert("reset_finished"@.len() != "timer"@.len()); }
    assert("reset_finished"@ != "log"@) by { assert("reset_finished"@.len() != "log"@.len()); }
    assert("reset_finished"@ != "register"@) by { assert("reset_finished"@.len() != "register"@.len()); }
    assert("reset_finished"@ != "reset"@) by { assert("reset_finished"@.len() != "reset"@.len()); }
    assert("reset_finished"@ != "launch"@) by { assert("reset_finished"@.len() != "launch"@.len()); }
    assert("reset_finished"@ != "alias"@) by { assert("reset_finished"@.len() != "alias"@.len()); }
    assert("reset_finished"@ != "begin_monitor"@) by { assert("reset_finished"@.len() != "begin_monitor"@.len()); }
    assert("reset_finished"@ != "break"@) by { assert("reset_finished"@.len() != "break"@.len()); }
    assert("reset_finished"@ != "control"@) by { assert("reset_finished"@.len() != "control"@.len()); }
    assert("reset_finished"@ != "subscribe_events"@) by { assert("reset_finished"@.len() != "subscribe_events"@.len()); }
    assert("publish_event"@ != "timer"@) by { assert("publish_event"@.len() != "timer"@.len()); }
    assert("publish_event"@ != "log"@) by { assert("publish_event"@.len() != "log"@.len()); }
    assert("publish_event"@ != "register"@) by { assert("publish_event"@.len() != "register"@.len()); }
    assert("publish_event"@ != "reset"@) by { assert("publish_event"@.len() != "reset"@.len()); }
    assert("publish_event"@ != "launch"@) by { assert("publish_event"@.len() != "launch"@.len()); }
    assert("publish_event"@ != "alias"@) by { assert("publish_event"@.len() != "alias"@.len()); }
    assert("publish_event"@ != "begin_monitor"@) by { assert("publish_event"@[0] != "begin_monitor"@[0]); }
    assert("publish_event"@ != "break"@) by { assert("publish_event"@.len() != "break"@.len()); }
    assert("publish_event"@ != "control"@) by { assert("publish_event"@.len() != "control"@.len()); }
    assert("publish_event"@ != "subscribe_events"@) by { assert("publish_event"@.len() != "subscribe_events"@.len()); }
    assert(""@ != "timer"@) by { assert(""@.len() != "timer"@.len()); }
    assert(""@ != "log"@) by { assert(""@.len() != "log"@.len()); }
    assert(""@ != "register"@) by { assert(""@.len() != "register"@.len()); }
    assert(""@ != "reset"@) by { assert(""@.len() != "reset"@.len()); }
    assert(""@ != "launch"@) by { assert(""@.len() != "launch"@.len()); }
    assert(""@ != "alias"@) by { assert(""@.len() != "alias"@.len()); }
    assert(""@ != "begin_monitor"@) by { assert(""@.len() != "begin_monitor"@.len()); }
    assert(""@ != "break"@) by { assert(""@.len() != "break"@.len()); }
    assert(""@ != "control"@) by { assert(""@.len() != "control"@.len()); }
    assert(""@ != "subscribe_events"@) by { assert(""@.len() != "subscribe_events"@.len()); }
}

/// The type of a message agrees with its body: a parsed payload carries its own type,
/// and a body kept as text carries no type of a request that the core handles.
pub open spec fn well_formed(m: Message) -> bool {
    match m.body.payload {
        Payload::Other(_) => !is_request_type(m.body.ty@),
        p => m.body.ty@ == payload_type(p),
    }
}

/// Returns `true` if `ty` is the type of a request that the core handles.
pub fn request_type(ty: &str) -> (b: bool)
    ensures
        b == is_request_type(ty@),
{
    str_eq(ty, types::TIMER) || str_eq(ty, types::LOG) || str_eq(ty, types::REGISTER) || str_eq(ty, types::RESET)
        || str_eq(ty, types::LAUNCH) || str_eq(ty, types::ALIAS) || str_eq(ty, types::BEGIN_MONITOR)
        || str_eq(ty, types::BREAK) || str_eq(ty, types::CONTROL) || str_eq(ty, types::SUBSCRIBE_EVENTS)
}

impl Message {
    /// Returns `true` if the type of the message agrees with its body.
    pub fn is_well_formed(&self) -> (b: bool)
        ensures
            b == well_formed(*self),
    {
        match &self.body.payload {
            Payload::Other(_) => !request_type(self.body.ty.as_str()),
            p => str_eq(self.body.ty.as_str(), type_of(p)),
        }
    }

    /// The channel of a message: the pair of its source and destination names.
    pub open spec fn channel(self) -> (Seq<char>, Seq<char>) {
        (self.src@, self.dest@)
    }

    /// Creates a system message from `src` to `dest`, without ids, whose type is the
    /// type of its payload.
    pub fn new(src: &str, dest: &str, payload: Payload) -> (m: Message)
        ensures
            m.src@ == src@,
            m.dest@ == dest@,
            m.body.ty@ == payload_type(payload),
            m.body.id is None,
            m.body.in_reply_to is None,
            m.body.payload == payload,
    {
        let ty = String::from_str(type_of(&payload));
        Message {
            src: String::from_str(src),
            dest: String::from_str(dest),
            body: MessageBody { ty, id: None, in_reply_to: None, payload },
        }
    }

    /// Returns `true` if `self` and `other` travel on the same channel.
    pub fn same_channel(&self, other: &Message) -> (b: bool)
        ensures
            b == (self.channel() == other.channel()),
    {
        let a = self.src == other.src;
        let b = self.dest == other.dest;
        a && b
    }
}

/// A copy of a log marker.
pub fn clone_log_marker(m: &LogMarker) -> (r: LogMarker)
    ensures
        r == *m,
{
    LogMarker { label: m.label.clone(), color: m.color }
}

/// A copy of a log message.
pub fn clone_log_message(m: &LogMessage) -> (r: LogMessage)
    ensures
        r == *m,
{
    let marker = match &m.marker {
        Some(mk) => Some(clone_log_marker(mk)),
        None => None,
    };
    LogMessage { text: m.text.clone(), marker }
}

fn clone_opt_string(s: &Option<String>) -> (r: Option<String>)
    ensures
        r == *s,
{
    match s {
        Some(x) => Some(x.clone()),
        None => None,
    }
}

/// A copy of a message.
pub fn clone_message(m: &Message) -> (r: Message)
    ensures
        r == *m,
    decreases *m, 0int,
{
    Message {
        src: m.src.clone(),
        dest: m.dest.clone(),
        body: MessageBody {
            ty: m.body.ty.clone(),
            id: m.body.id,
            in_reply_to: m.body.in_reply_to,
            payload: clone_payload(&m.body.payload),
        },
    }
}

/// A copy of a payload.
pub fn clone_payload(p: &Payload) -> (r: Payload)
    ensures
        r == *p,
    decreases *p, 0int,
{
    match p {
        Payload::Init { name, core_name, core_version } => Payload::Init {
            name: name.clone(),
            core_name: core_name.clone(),
            core_version: core_version.clone(),
        },
        Payload::Timer { name, millis } => Payload::Timer { name: name.clone(), millis: *millis },
        Payload::TimerExpired { name } => Payload::TimerExpired { name: name.clone() },
        Payload::Log(l) => Payload::Log(clone_log_message(l)),
        Payload::Register => Payload::Register,
        Payload::Reset => Payload::Reset,
        Payload::ResetFinished => Payload::ResetFinished,
        Payload::Launch { name, command_name, request_exited_message } => Payload::Launch {
            name: name.clone(),
            command_name: command_name.clone(),
            request_exited_message: *request_exited_message,
        },
        Payload::LaunchFinished { error } => Payload::LaunchFinished { error: clone_opt_string(error) },
        Payload::Alias { name } => Payload::Alias { name: name.clone() },
        Payload::BeginMonitor { src_match, dst_match } => Payload::BeginMonitor {
            src_match: src_match.clone(),
            dst_match: dst_match.clone(),
        },
        Payload::MonitorEvent(e) => Payload::MonitorEvent(MonitorEvent {
            kind: e.kind,
            timestamp_logical: e.timestamp_logical,
            timestamp_physical: e.timestamp_physical,
            in_reference_to: e.in_reference_to,
            message: Box::new(clone_message(&e.message)),
        }),
        Payload::Exited { name, exit_code } => Payload::Exited { name: name.clone(), exit_code: *exit_code },
        Payload::Break => Payload::Break,
        Payload::Control(c) => Payload::Control(*c),
        Payload::SubscribeEvents => Payload::SubscribeEvents,
        Payload::PublishEvent(e) => Payload::PublishEvent(clone_event(e)),
        Payload::Other(f) => Payload::Other(f.clone()),
    }
}

/// A copy of an event.
pub fn clone_event(e: &Event) -> (r: Event)
    ensures
        r == *e,
    decreases *e, 0int,
{
    let kind = match &e.kind {
        EventKind::Reset => EventKind::Reset,
        EventKind::NodeLaunched { name, commandline } => EventKind::NodeLaunched {
            name: name.clone(),
            commandline: commandline.clone(),
        },
        EventKind::SendMessage(m) => EventKind::SendMessage(Box::new(clone_message(m))),
        EventKind::DeliverMessage { sent_timestamp } => EventKind::DeliverMessage { sent_timestamp: *sent_timestamp },
        EventKind::DropMessage { sent_timestamp } => EventKind::DropMessage { sent_timestamp: *sent_timestamp },
        EventKind::Log { name, message } => EventKind::Log { name: name.clone(), message: clone_log_message(message) },
        EventKind::NodeDisconnected { name, exit_code } => EventKind::NodeDisconnected {
            name: name.clone(),
            exit_code: *exit_code,
        },
    };
    Event { timestamp: e.timestamp, kind }
}

} // verus!
