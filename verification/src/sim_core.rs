//! The simulation core: it governs the execution of the simulation.
//!
//! The core holds the registry of nodes, the network of messages in transit, the
//! timers, the monitoring sessions and the event subscribers. A driver feeds it the
//! events of the node processes, the expired timers and the control commands; the core
//! decides what happens and puts the commands for the processes into its outbox and
//! the lines for the log into its log.

use vstd::prelude::*;

use crate::capabilities::{required_capability, Capabilities};
use crate::command::{join_spaces, RunnerCommand};
use crate::error::{describe_error, CoreError, DispatchErrorKind};
use crate::event::{Event, EventKind};
use crate::message::{clone_event, clone_log_message, payload_type, type_of, Control, LogMarker, LogMessage, Message, MonitorEvent, MonitorEventKind, Payload};
use crate::handle::ExitStatus;
use crate::log_color::{ansi_color, log_marker_ansi_color, LogMarkerColor, RESET};
use crate::monitor::MonitorSession;
use crate::message::{clone_message, well_formed};
use crate::network::{sorted_by_time, spec_insert, count_before, spec_remove_one, has_message_from, holds_time, touches, ts_of, DeliveryNotice, MessageInTransit, Network, NetworkOrder};
use crate::node::{Node, NodeId};
use crate::node_manager::{kept_names, NodeManager};
use crate::process::{ProcessCommand, ProcessEvent, ProcessEventOrExit, UnknownRunner};
use crate::text::{without_str, clone_strings, contains_str, has_str, str_eq};
use crate::timer_manager::{count_not_after, keeps, names_contain, Timer, TimerFilter, TimerKind, TimerManager};
use crate::timestamp::{Timestamp, TimestampSource};
use crate::types;
use crate::version;

verus! {

/// Starts processes for the core. The driver of the core implements it.
pub trait Spawner<P> {
    /// Starts a process, for the node that will have the id `id`, for `command` with the
    /// runner that the command names; fails if no runner has that name. If the node
    /// cannot be added after all, the process is dropped and the id is handed out again.
    fn spawn(&mut self, id: NodeId, command: &RunnerCommand) -> Result<P, UnknownRunner>;

    /// The names of the registered runners.
    fn available_runners(&self) -> Vec<String>;
}

/// The execution state of the core.
#[derive(Clone, Copy, PartialEq, Eq, Structural, Debug)]
pub enum CoreState {
    /// the core runs normally
    Running,
    /// the delivery of messages is paused; everything else continues
    Paused,
    /// the core delivers a single message and then pauses
    Stepping,
}

/// The level of a log line.
#[derive(Clone, Copy, PartialEq, Eq, Structural, Debug)]
pub enum LogLevel {
    Info,
    Warn,
    Error,
}

/// A line for the log of the driver.
pub struct LogLine {
    pub level: LogLevel,
    pub text: String,
}

/// A command for the process of a node, waiting in the outbox.
pub struct Outgoing {
    pub to: NodeId,
    pub command: ProcessCommand,
}

/// A node that the core launches when it starts.
pub struct InitialLaunch {
    pub command: String,
    pub name: String,
    pub requires_registration: bool,
    pub weak: bool,
}

/// A command that nodes can be launched from, with the capabilities of those nodes.
pub struct RegisteredCommand {
    pub name: String,
    pub command: RunnerCommand,
    pub capabilities: Capabilities,
}

/// A command that controls the execution of the core from outside.
pub enum RemoteCommand {
    /// pauses the delivery of messages
    Break,
    /// delivers a single message, then pauses again
    Step,
    /// resumes the delivery of messages
    Resume,
    /// delivers the message sent at the given logical time
    Deliver(usize),
    /// drops the message sent at the given logical time
    Drop(usize),
    /// restarts the simulation from the beginning, possibly with new commands for the
    /// test and the server nodes; the driver carries it out with a new core
    Restart { test_command: Option<String>, server_command: Option<String> },
    /// shuts all nodes down
    Shutdown,
}

/// Which nodes a shutdown concerns.
#[derive(Clone, Copy, PartialEq, Eq, Structural, Debug)]
pub enum ShutdownSelection {
    /// all nodes
    All,
    /// the nodes launched by the given node
    LaunchedBy(NodeId),
}

/// The names of the registered commands are unique.
pub open spec fn unique_commands(c: Seq<RegisteredCommand>) -> bool {
    forall|i: int, j: int| 0 <= i < j < c.len() ==> (#[trigger] c[i]).name@ != (#[trigger] c[j]).name@
}

/// The outgoing command `o` delivers a message from `src` to `dest` with `payload` to
/// the node `to`.
pub open spec fn delivers(o: Outgoing, to: NodeId, src: Seq<char>, dest: Seq<char>, payload: Payload) -> bool {
    &&& o.to == to
    &&& o.command matches ProcessCommand::Deliver(m)
    &&& m.src@ == src
    &&& m.dest@ == dest
    &&& m.body.payload == payload
}

/// The monitoring sessions of `sessions` that watch `message`, in their order.
pub open spec fn watching(sessions: Seq<MonitorSession>, message: Message) -> Seq<MonitorSession> {
    sessions.filter(|s: MonitorSession| s.watches(message))
}

/// The outgoing command `o` notifies the node `to`, named `dest`, that `message` was
/// sent (with no reference) or delivered (in reference to the logical time it was
/// sent) at `ts`.
pub open spec fn monitor_notice(
    o: Outgoing,
    to: NodeId,
    core_name: Seq<char>,
    dest: Seq<char>,
    ts: Timestamp,
    in_reference_to: Option<usize>,
    message: Message,
) -> bool {
    &&& o.to == to
    &&& o.command matches ProcessCommand::Deliver(m)
    &&& m.src@ == core_name
    &&& m.dest@ == dest
    &&& m.body.payload matches Payload::MonitorEvent(e)
    &&& e.kind == (if in_reference_to is Some { MonitorEventKind::Delivered } else { MonitorEventKind::Sent })
    &&& e.timestamp_logical == ts.logical
    &&& e.timestamp_physical == ts.physical
    &&& e.in_reference_to == in_reference_to
    &&& *e.message == message
}

/// A payload that only the core sends to nodes: the core itself handles none of them.
pub open spec fn core_originated(p: Payload) -> bool {
    p is Init || p is TimerExpired || p is LaunchFinished || p is Exited
}

/// `s` is a name of the node `id`.
pub open spec fn refers_to(names: Map<Seq<char>, NodeId>, s: Seq<char>, id: NodeId) -> bool {
    names.contains_key(s) && names[s] == id
}

/// The source or the destination of `m` is a name of the node `id`.
pub open spec fn touches_node(names: Map<Seq<char>, NodeId>, id: NodeId, m: MessageInTransit) -> bool {
    refers_to(names, m.message.src@, id) || refers_to(names, m.message.dest@, id)
}

/// The timer `t` is a timer-service timer named by one of `names`.
pub open spec fn service_named(names: Seq<String>, t: Timer) -> bool {
    t.kind matches TimerKind::TimerService { name, .. } && has_str(names, name@)
}

/// The timer `t` is a timer-service timer named by a name of the node `id`, or the
/// registration timer of `id`.
pub open spec fn timer_of(names: Map<Seq<char>, NodeId>, id: NodeId, t: Timer) -> bool {
    ||| (t.kind matches TimerKind::TimerService { name, .. } && refers_to(names, name@, id))
    ||| t.kind == (TimerKind::ExpectRegistry { node_id: id })
}

/// The selection `sel` concerns the node `n`.
pub open spec fn selects<P>(sel: ShutdownSelection, n: Node<P>) -> bool {
    match sel {
        ShutdownSelection::All => true,
        ShutdownSelection::LaunchedBy(id) => n.launched_by == Some(id),
    }
}

/// The line that the log shows for `message`, logged by the node `node_name` under the
/// name `source_name`: with a marker, its label in its color in front of the text.
pub open spec fn log_text(source_name: Seq<char>, node_name: Seq<char>, message: LogMessage) -> Seq<char> {
    let head = "["@ + source_name + "]["@ + node_name + "]: "@;
    match message.marker {
        Some(marker) => match marker.color {
            Some(c) => head + ansi_color(c) + "["@ + marker.label@ + "] "@ + message.text@ + RESET@,
            None => head + "["@ + marker.label@ + "] "@ + message.text@,
        },
        None => head + message.text@,
    }
}

/// The line that the log shows for an error of the core.
pub open spec fn core_error_text(e: CoreError, message_text: Seq<char>) -> Seq<char> {
    "simulation core error:\n"@ + describe_error(e, message_text)
}

/// The outgoing command `o` tells the node `to`, named `dest`, on behalf of the core
/// `core_name`, that a node named `name` was launched.
pub open spec fn launch_notice(o: Outgoing, to: NodeId, core_name: Seq<char>, dest: Seq<char>, name: Seq<char>) -> bool {
    &&& o.to == to
    &&& o.command matches ProcessCommand::Deliver(m)
    &&& m.src@ == core_name
    &&& m.dest@ == dest
    &&& m.body.payload matches Payload::PublishEvent(e)
    &&& e.kind matches EventKind::NodeLaunched { name: n, .. }
    &&& n@ == name
}

/// The line that the log shows for `message`, logged by the node `node_name` under the
/// name `source_name`.
pub fn log_line_text(source_name: &str, node_name: &str, message: &LogMessage) -> (s: String)
    ensures
        s@ == log_text(source_name@, node_name@, *message),
{
    let mut s = String::from_str("[");
    s.append(source_name);
    s.append("][");
    s.append(node_name);
    s.append("]: ");
    proof {
        reveal_strlit("[");
        reveal_strlit("][");
        reveal_strlit("]: ");
        reveal_strlit("] ");
    }
    let ghost head = "["@ + source_name@ + "]["@ + node_name@ + "]: "@;
    assert(s@ =~= head);
    match &message.marker {
        Some(marker) => {
            match marker.color {
                Some(c) => {
                    s.append(log_marker_ansi_color(c));
                },
                None => {},
            }
            s.append("[");
            s.append(marker.label.as_str());
            s.append("] ");
            s.append(message.text.as_str());
            match marker.color {
                Some(c) => {
                    s.append(RESET);
                    assert(s@ =~= head + ansi_color(c) + "["@ + marker.label@ + "] "@ + message.text@ + RESET@);
                },
                None => {
                    assert(s@ =~= head + "["@ + marker.label@ + "] "@ + message.text@);
                },
            }
        },
        None => {
            s.append(message.text.as_str());
            assert(s@ =~= head + message.text@);
        },
    }
    s
}

/// Some registered command is named `name`.
pub open spec fn has_command(c: Seq<RegisteredCommand>, name: Seq<char>) -> bool {
    exists|i: int| 0 <= i < c.len() && (#[trigger] c[i]).name@ == name
}

/// The registered command named `name` (the names are unique).
pub open spec fn command_named(c: Seq<RegisteredCommand>, name: Seq<char>) -> RegisteredCommand {
    c[choose|i: int| 0 <= i < c.len() && (#[trigger] c[i]).name@ == name]
}

/// `e` is an error of starting a simulation with the initial launches `inits`: the
/// first initial command that is not registered, a runner that the spawner does not
/// know, a name that is taken (before the start or by an earlier initial node), the
/// refused `init` message of a node named like the core, or a clock or an id counter
/// too close to its end for all the launches.
pub open spec fn setup_error(
    e: CoreError,
    commands: Seq<RegisteredCommand>,
    names: Map<Seq<char>, NodeId>,
    core_name: Seq<char>,
    inits: Seq<InitialLaunch>,
    next_logical: nat,
    next_id: NodeId,
) -> bool {
    match e {
        CoreError::UnknownCommand { command_name: n, available_commands: a } => exists|j: int| 0 <= j < inits.len()
            && (#[trigger] inits[j]).command@ == n@ && !has_command(commands, n@) && a.deep_view() == command_names(commands)
            && forall|i: int| 0 <= i < j ==> has_command(commands, (#[trigger] inits[i]).command@),
        CoreError::UnknownRunner { runner_name, .. } => exists|j: int| 0 <= j < inits.len()
            && has_command(commands, (#[trigger] inits[j]).command@)
            && runner_name@ == command_named(commands, inits[j].command@).command.runner@,
        CoreError::DuplicateNodeName { name: n } => exists|j: int| 0 <= j < inits.len() && (#[trigger] inits[j]).name@ == n@
            && (names.contains_key(n@) || exists|i: int| 0 <= i < j && (#[trigger] inits[i]).name@ == n@),
        CoreError::UnknownCoreMessage { name: n, ty } => n@ == core_name && ty@ == types::INIT@
            && exists|j: int| 0 <= j < inits.len() && (#[trigger] inits[j]).name@ == core_name,
        CoreError::ClockExhausted => next_logical + 1 + 4 * inits.len() > usize::MAX || next_id.0 + inits.len() >= usize::MAX,
        _ => false,
    }
}

/// `e` is an error of launching the node `name` from the command named `command_name`,
/// with the registered commands `commands` and the names `names`: the command is not
/// registered, its runner is unknown, the name is taken, or no id is left.
pub open spec fn launch_error(
    e: CoreError,
    commands: Seq<RegisteredCommand>,
    names: Map<Seq<char>, NodeId>,
    command_name: Seq<char>,
    name: Seq<char>,
) -> bool {
    match e {
        CoreError::UnknownCommand { command_name: n, available_commands: a } => !has_command(commands, command_name)
            && n@ == command_name && a.deep_view() == command_names(commands),
        CoreError::UnknownRunner { runner_name, .. } => has_command(commands, command_name)
            && runner_name@ == command_named(commands, command_name).command.runner@,
        CoreError::DuplicateNodeName { name: n } => has_command(commands, command_name) && names.contains_key(name) && n@ == name,
        CoreError::ClockExhausted => has_command(commands, command_name),
        _ => false,
    }
}

/// `e` is an error of launching the server node `name` for the core `core_name`: an
/// error of the launch, or the refusal of its `init` message when the node is named
/// like the core.
pub open spec fn server_launch_error(
    e: CoreError,
    commands: Seq<RegisteredCommand>,
    names: Map<Seq<char>, NodeId>,
    core_name: Seq<char>,
    command_name: Seq<char>,
    name: Seq<char>,
) -> bool {
    ||| launch_error(e, commands, names, command_name, name)
    ||| (e matches CoreError::UnknownCoreMessage { name: n, ty } && name == core_name && n@ == core_name && ty@ == types::INIT@
        && has_command(commands, command_name))
}

/// The names of the registered commands, in their order.
pub open spec fn command_names(c: Seq<RegisteredCommand>) -> Seq<Seq<char>> {
    c.map_values(|r: RegisteredCommand| r.name@)
}

/// The outgoing command `o` aborts the process of one of the nodes `ids` that is in
/// `nodes` and whose process has not ended.
pub open spec fn unfinished_abort<P>(o: Outgoing, ids: Seq<NodeId>, nodes: Map<NodeId, Node<P>>) -> bool {
    &&& o.command is Abort
    &&& ids.contains(o.to)
    &&& nodes.contains_key(o.to)
    &&& nodes[o.to].exit_status is Running
}

/// How a process ended, from its exit code, or `None` when it was aborted.
pub open spec fn ended_status(exit_code: Option<i32>) -> ExitStatus {
    match exit_code {
        Some(c) => ExitStatus::Exited(c),
        None => ExitStatus::Aborted,
    }
}

/// The messages `q` left in transit after a message of `source` was delivered: if the
/// sender has ended and nothing else of it is in transit, it is removed and the messages
/// from and to its names are dropped; otherwise `q` stays.
pub open spec fn after_delivery<P>(
    nodes: Map<NodeId, Node<P>>,
    names: Map<Seq<char>, NodeId>,
    q: Seq<MessageInTransit>,
    source: Option<NodeId>,
) -> Seq<MessageInTransit> {
    match source {
        Some(s) => if exit_due(nodes, q, s) {
            q.filter(|m: MessageInTransit| !touches_node(names, s, m))
        } else {
            q
        },
        None => q,
    }
}

/// The outgoing command `o` delivers a notice to a subscriber or a monitoring node: a
/// published event or a monitor event.
pub open spec fn is_notice(o: Outgoing) -> bool {
    o.command matches ProcessCommand::Deliver(m) && (m.body.payload is PublishEvent || m.body.payload is MonitorEvent)
}

/// The outgoing command `o` delivers an `exited` message.
pub open spec fn exited_payload(o: Outgoing) -> bool {
    o.command matches ProcessCommand::Deliver(m) && m.body.payload is Exited
}

/// The outgoing command `o` tells the subscriber `to`, named `dest`, on behalf of the
/// core `core_name`, that `message` was sent at the logical time `logical`.
pub open spec fn send_notice(o: Outgoing, to: NodeId, core_name: Seq<char>, dest: Seq<char>, logical: nat, message: Message) -> bool {
    &&& o.to == to
    &&& o.command matches ProcessCommand::Deliver(m)
    &&& m.src@ == core_name
    &&& m.dest@ == dest
    &&& m.body.payload matches Payload::PublishEvent(e)
    &&& e.timestamp.logical as nat == logical
    &&& e.kind matches EventKind::SendMessage(b)
    &&& *b == message
}

/// The outgoing command `o` tells the subscriber `to`, named `dest`, on behalf of the
/// core `core_name`, that the message sent at the logical time `sent` was delivered.
pub open spec fn delivery_notice(o: Outgoing, to: NodeId, core_name: Seq<char>, dest: Seq<char>, sent: usize) -> bool {
    &&& o.to == to
    &&& o.command matches ProcessCommand::Deliver(m)
    &&& m.src@ == core_name
    &&& m.dest@ == dest
    &&& m.body.payload matches Payload::PublishEvent(e)
    &&& e.kind == (EventKind::DeliverMessage { sent_timestamp: sent })
}

/// `s` is an alias of the node `id`: a name of it other than its own name `own`.
pub open spec fn is_alias_of(names: Map<Seq<char>, NodeId>, id: NodeId, own: Seq<char>, s: Seq<char>) -> bool {
    refers_to(names, s, id) && s != own
}

/// The source or the destination of `m` is an alias of the node `id`.
pub open spec fn touches_aliases(names: Map<Seq<char>, NodeId>, id: NodeId, own: Seq<char>, m: MessageInTransit) -> bool {
    is_alias_of(names, id, own, m.message.src@) || is_alias_of(names, id, own, m.message.dest@)
}

/// The timer `t` is a timer-service timer named by an alias of the node `id`.
pub open spec fn alias_service_timer(names: Map<Seq<char>, NodeId>, id: NodeId, own: Seq<char>, t: Timer) -> bool {
    t.kind matches TimerKind::TimerService { name, .. } && is_alias_of(names, id, own, name@)
}

/// The node `id` is in `nodes`, its process has ended, and nothing it sent is in
/// `network`: it is due to be removed.
pub open spec fn exit_due<P>(nodes: Map<NodeId, Node<P>>, network: Seq<MessageInTransit>, id: NodeId) -> bool {
    nodes.contains_key(id) && !(nodes[id].exit_status is Running) && !has_message_from(network, id)
}

/// The outgoing command `o` tells the node `to`, named `dest`, on behalf of the core
/// `core_name`, that the node `name` exited with the exit code `code`.
pub open spec fn exited_notice(o: Outgoing, to: NodeId, core_name: Seq<char>, dest: Seq<char>, name: Seq<char>, code: i32) -> bool {
    &&& o.to == to
    &&& o.command matches ProcessCommand::Deliver(m)
    &&& m.src@ == core_name
    &&& m.dest@ == dest
    &&& m.body.payload matches Payload::Exited { name: n, exit_code: c }
    &&& n@ == name
    &&& c == code
}

/// The outgoing command `o` delivers the `init` message to the node `to`, named
/// `name`, from the core `core_name`.
pub open spec fn init_notice(o: Outgoing, to: NodeId, core_name: Seq<char>, name: Seq<char>) -> bool {
    &&& o.to == to
    &&& o.command matches ProcessCommand::Deliver(m)
    &&& m.src@ == core_name
    &&& m.dest@ == name
    &&& m.body.payload matches Payload::Init { name: n, core_name: c, .. }
    &&& n@ == name
    &&& c@ == core_name
}

/// The error text of the `launch_finished` message that `o` delivers, if any.
pub open spec fn answered_error(o: Outgoing) -> Option<Seq<char>> {
    match o.command {
        ProcessCommand::Deliver(m) => match m.body.payload {
            Payload::LaunchFinished { error } => match error {
                Some(t) => Some(t@),
                None => None,
            },
            _ => None,
        },
        _ => None,
    }
}

/// The outgoing command `o` tells the node `to` that its launch request (or alias
/// request) has finished, with `error` unless it succeeded.
pub open spec fn launch_finished(o: Outgoing, to: NodeId, core_name: Seq<char>, dest: Seq<char>, failed: bool) -> bool {
    &&& o.to == to
    &&& o.command matches ProcessCommand::Deliver(m)
    &&& m.src@ == core_name
    &&& m.dest@ == dest
    &&& m.body.payload matches Payload::LaunchFinished { error }
    &&& error is Some == failed
}

/// A payload that a node may send to the core only with the capability its type
/// requires.
pub open spec fn needs_capability(p: Payload) -> bool {
    p is Reset || p is Launch || p is Alias || p is BeginMonitor || p is Break || p is Control || p is SubscribeEvents
}

/// The capabilities `caps` allow sending a system message with payload `p`.
pub open spec fn may_send(caps: Capabilities, p: Payload) -> bool {
    match required_capability(payload_type(p)) {
        Some(c) => caps.has(c),
        None => false,
    }
}

/// A payload that the core handles when a node sends it to the core.
pub open spec fn core_request(p: Payload) -> bool {
    needs_capability(p) || p is Timer || p is Log || p is Register
}

/// The delay after which the nodes that were asked to shut down are terminated.
pub const SHUTDOWN_TIMEOUT_MILLIS: u64 = 1000;

/// The delay within which a test node must register.
pub const REGISTRATION_TIMEOUT_MILLIS: u64 = 500;

/// The name of the core unless another is given.
pub const DEFAULT_CORE_NAME: &'static str = "core";

/// A builder for a [`Core`].
pub struct Builder {
    commands: Vec<RegisteredCommand>,
    launch_initial: Vec<InitialLaunch>,
    interactive: bool,
    core_name: String,
}

impl Builder {
    /// The names of the registered commands are unique.
    #[verifier::type_invariant]
    spec fn commands_unique(self) -> bool {
        unique_commands(self.commands@)
    }

    pub closed spec fn spec_commands(self) -> Seq<RegisteredCommand> {
        self.commands@
    }

    pub closed spec fn spec_launch_initial(self) -> Seq<InitialLaunch> {
        self.launch_initial@
    }

    pub closed spec fn spec_interactive(self) -> bool {
        self.interactive
    }

    pub closed spec fn spec_core_name(self) -> Seq<char> {
        self.core_name@
    }

    /// A builder without commands and initial launches, not interactive, for a core
    /// named `core`.
    pub fn new() -> (b: Self)
        ensures
            b.spec_commands().len() == 0,
            b.spec_launch_initial().len() == 0,
            !b.spec_interactive(),
            b.spec_core_name() == DEFAULT_CORE_NAME@,
    {
        Self {
            commands: Vec::new(),
            launch_initial: Vec::new(),
            interactive: false,
            core_name: String::from_str(DEFAULT_CORE_NAME),
        }
    }

    /// Registers a command that can be launched; a command of the same name is replaced.
    pub fn register_command(self, name: String, command: RunnerCommand, capabilities: Capabilities) -> (b: Self)
        ensures
            unique_commands(b.spec_commands()),
            b.spec_launch_initial() == self.spec_launch_initial(),
            b.spec_interactive() == self.spec_interactive(),
            b.spec_core_name() == self.spec_core_name(),
            exists|i: int| 0 <= i < b.spec_commands().len() && (#[trigger] b.spec_commands()[i]).name@ == name@
                && b.spec_commands()[i].capabilities == capabilities && b.spec_commands()[i].command == command,
            forall|i: int| 0 <= i < self.spec_commands().len() && (#[trigger] self.spec_commands()[i]).name@ != name@
                ==> b.spec_commands().contains(self.spec_commands()[i]),
            forall|i: int| 0 <= i < b.spec_commands().len() && (#[trigger] b.spec_commands()[i]).name@ != name@
                ==> self.spec_commands().contains(b.spec_commands()[i]),
    {
        proof {
            use_type_invariant(&self);
        }
        let ghost old_self = self;
        let Builder { mut commands, launch_initial, interactive, core_name } = self;
        let n = commands.len();
        let mut i: usize = 0;
        let mut found = false;
        while i < n && !found
            invariant
                n == commands@.len(),
                0 <= i <= n,
                !found ==> forall|k: int| 0 <= k < i ==> (#[trigger] commands@[k]).name@ != name@,
                found ==> i < n && commands@[i as int].name@ == name@,
            decreases n - i + (if found { 0int } else { 1int }),
        {
            if str_eq(commands[i].name.as_str(), name.as_str()) {
                found = true;
            } else {
                i = i + 1;
            }
        }
        let ghost old_c = commands@;
        let ghost idx: int = if found { i as int } else { n as int };
        let entry = RegisteredCommand { name, command, capabilities };
        if found {
            commands.set(i, entry);
            proof {
                let c = commands@;
                assert(c[i as int] == entry);
                assert forall|x: int, y: int| 0 <= x < y < c.len() implies (#[trigger] c[x]).name@ != (#[trigger] c[y]).name@ by {
                    if x != i && y != i {
                        assert(c[x] == old_c[x] && c[y] == old_c[y]);
                    } else if x == i {
                        assert(c[y] == old_c[y]);
                        assert(old_c[i as int].name@ != old_c[y].name@);
                    } else {
                        assert(c[x] == old_c[x]);
                        assert(old_c[x].name@ != old_c[i as int].name@);
                    }
                }
                assert forall|k: int| 0 <= k < old_c.len() && (#[trigger] old_c[k]).name@ != entry.name@ implies c.contains(old_c[k]) by {
                    assert(k != i);
                    assert(c[k] == old_c[k]);
                }
                assert forall|k: int| 0 <= k < c.len() && (#[trigger] c[k]).name@ != entry.name@ implies old_c.contains(c[k]) by {
                    assert(k != i);
                    assert(c[k] == old_c[k]);
                }
                assert(c[i as int].name@ == entry.name@);
            }
        } else {
            commands.push(entry);
            proof {
                let c = commands@;
                assert(c[n as int] == entry);
                assert forall|x: int, y: int| 0 <= x < y < c.len() implies (#[trigger] c[x]).name@ != (#[trigger] c[y]).name@ by {
                    if y < n {
                        assert(c[x] == old_c[x] && c[y] == old_c[y]);
                    } else {
                        assert(c[x] == old_c[x]);
                    }
                }
                assert forall|k: int| 0 <= k < old_c.len() && (#[trigger] old_c[k]).name@ != entry.name@ implies c.contains(old_c[k]) by {
                    assert(c[k] == old_c[k]);
                }
                assert forall|k: int| 0 <= k < c.len() && (#[trigger] c[k]).name@ != entry.name@ implies old_c.contains(c[k]) by {
                    assert(c[k] == old_c[k]);
                }
                assert(c[n as int].name@ == entry.name@);
            }
        }
        let b = Builder { commands, launch_initial, interactive, core_name };
        assert(b.spec_commands()[idx] == entry);
        b
    }

    /// Launches a node from the command `command` under the name `name` when the core
    /// starts; the node keeps the core running.
    pub fn launch(self, command: String, name: String, requires_registration: bool) -> (b: Self)
        ensures
            b.spec_commands() == self.spec_commands(),
            b.spec_interactive() == self.spec_interactive(),
            b.spec_core_name() == self.spec_core_name(),
            b.spec_launch_initial() == self.spec_launch_initial().push(
                InitialLaunch { command, name, requires_registration, weak: false },
            ),
    {
        proof {
            use_type_invariant(&self);
        }
        let Builder { commands, mut launch_initial, interactive, core_name } = self;
        launch_initial.push(InitialLaunch { command, name, requires_registration, weak: false });
        Builder { commands, launch_initial, interactive, core_name }
    }

    /// Launches a node from the command `command` under the name `name` when the core
    /// starts; the node does not keep the core running if only such nodes remain.
    pub fn launch_weak(self, command: String, name: String, requires_registration: bool) -> (b: Self)
        ensures
            b.spec_commands() == self.spec_commands(),
            b.spec_interactive() == self.spec_interactive(),
            b.spec_core_name() == self.spec_core_name(),
            b.spec_launch_initial() == self.spec_launch_initial().push(
                InitialLaunch { command, name, requires_registration, weak: true },
            ),
    {
        proof {
            use_type_invariant(&self);
        }
        let Builder { commands, mut launch_initial, interactive, core_name } = self;
        launch_initial.push(InitialLaunch { command, name, requires_registration, weak: true });
        Builder { commands, launch_initial, interactive, core_name }
    }

    /// Enables or disables interactive mode.
    pub fn interactive(self, interactive: bool) -> (b: Self)
        ensures
            b.spec_commands() == self.spec_commands(),
            b.spec_launch_initial() == self.spec_launch_initial(),
            b.spec_core_name() == self.spec_core_name(),
            b.spec_interactive() == interactive,
    {
        proof {
            use_type_invariant(&self);
        }
        let Builder { commands, launch_initial, interactive: _, core_name } = self;
        Builder { commands, launch_initial, interactive, core_name }
    }

    /// Sets the name of the simulation core.
    pub fn core_name(self, core_name: String) -> (b: Self)
        ensures
            b.spec_commands() == self.spec_commands(),
            b.spec_launch_initial() == self.spec_launch_initial(),
            b.spec_interactive() == self.spec_interactive(),
            b.spec_core_name() == core_name@,
    {
        proof {
            use_type_invariant(&self);
        }
        let Builder { commands, launch_initial, interactive, core_name: _ } = self;
        Builder { commands, launch_initial, interactive, core_name }
    }
}

/// The core of the simulation: all state of a simulation run.
pub struct Core<P> {
    core_name: String,
    launch_initial: Vec<InitialLaunch>,
    nodes: NodeManager<P>,
    commands: Vec<RegisteredCommand>,
    interactive: bool,
    state: CoreState,
    timestamp_source: TimestampSource,
    monitor_sessions: Vec<MonitorSession>,
    event_subscribers: Vec<NodeId>,
    network: Network,
    timer_manager: TimerManager,
    next_node_id: NodeId,
    /// the processes the core asked the spawner for: the id of the node and the command
    spawn_requests: Ghost<Seq<(NodeId, RunnerCommand)>>,
    now: u64,
    outbox: Vec<Outgoing>,
    log: Vec<LogLine>,
}

impl<P> Core<P> {
    /// The name of the core.
    pub closed spec fn spec_core_name(self) -> Seq<char> {
        self.core_name@
    }

    /// The execution state.
    pub closed spec fn spec_state(self) -> CoreState {
        self.state
    }

    /// Interactive mode is on.
    pub closed spec fn spec_interactive(self) -> bool {
        self.interactive
    }

    /// The nodes by id.
    pub closed spec fn spec_nodes(self) -> Map<NodeId, Node<P>> {
        self.nodes.nodes()
    }

    /// The names of the nodes and the ids they refer to.
    pub closed spec fn spec_names(self) -> Map<Seq<char>, NodeId> {
        self.nodes.names()
    }

    /// The messages in transit.
    pub closed spec fn spec_network(self) -> Seq<MessageInTransit> {
        self.network@
    }

    /// The outstanding timers.
    pub closed spec fn spec_timers(self) -> Seq<Timer> {
        self.timer_manager@
    }

    /// The commands waiting for the processes.
    pub closed spec fn spec_outbox(self) -> Seq<Outgoing> {
        self.outbox@
    }

    /// The lines waiting for the log.
    pub closed spec fn spec_log(self) -> Seq<LogLine> {
        self.log@
    }

    /// The nodes that subscribed to events.
    pub closed spec fn spec_subscribers(self) -> Seq<NodeId> {
        self.event_subscribers@
    }

    /// The monitoring sessions.
    pub closed spec fn spec_sessions(self) -> Seq<MonitorSession> {
        self.monitor_sessions@
    }

    /// The logical time of the next timestamp.
    pub closed spec fn spec_next_logical(self) -> nat {
        self.timestamp_source.next_logical()
    }

    /// The registered commands.
    pub closed spec fn spec_commands(self) -> Seq<RegisteredCommand> {
        self.commands@
    }

    /// The processes the core asked the spawner for, in order: the id of the node and
    /// the command.
    pub closed spec fn spec_spawn_requests(self) -> Seq<(NodeId, RunnerCommand)> {
        self.spawn_requests@
    }

    /// The id that the next node will have.
    pub closed spec fn spec_next_node_id(self) -> NodeId {
        self.next_node_id
    }

    /// The driver's clock, in milliseconds.
    pub closed spec fn spec_now(self) -> u64 {
        self.now
    }

    /// What every state of the core keeps:
    /// - the node registry, the network and the timers are well formed;
    /// - every message in transit was sent before the next timestamp, and the sender of
    ///   a message is the node that its source name refers to;
    /// - the source of every monitoring session and every event subscriber is a node;
    /// - every node's id is below the next id to hand out;
    /// - every registration timer is for a node;
    /// - the command names are unique.
    pub closed spec fn inv(self) -> bool {
        &&& self.nodes.wf()
        &&& self.network.wf()
        &&& self.timer_manager.wf()
        &&& forall|i: int| 0 <= i < self.network@.len() ==> ts_of(#[trigger] self.network@[i]) < self.timestamp_source.next_logical()
        &&& forall|i: int| 0 <= i < self.network@.len() ==> match (#[trigger] self.network@[i]).source {
            Some(id) => self.nodes.names().contains_key(self.network@[i].message.src@)
                && self.nodes.names()[self.network@[i].message.src@] == id,
            None => true,
        }
        &&& forall|k: int| 0 <= k < self.monitor_sessions@.len() ==> self.nodes.names().contains_key((#[trigger] self.monitor_sessions@[k]).source@)
        &&& forall|k: int| 0 <= k < self.event_subscribers@.len() ==> self.nodes.nodes().contains_key(#[trigger] self.event_subscribers@[k])
        &&& forall|id: NodeId| #[trigger] self.nodes.nodes().contains_key(id) ==> id.0 < self.next_node_id.0
        &&& forall|i: int| 0 <= i < self.timer_manager@.len() ==> match (#[trigger] self.timer_manager@[i]).kind {
            TimerKind::ExpectRegistry { node_id } => self.nodes.nodes().contains_key(node_id),
            _ => true,
        }
        &&& unique_commands(self.commands@)
    }

    /// What handling the request `message` of the node `source_id` to the core did, in
    /// the state `old`, leading to the state `new` with the result `r`:
    /// - a request that needs a capability the node lacks is refused, and the nodes,
    ///   the names, the network, the timers, the sessions and the state are unchanged;
    /// - so is a message of a type that the core does not handle;
    /// - a timer request sets a timer-service timer, answered to the sender;
    /// - a registration clears the node's registration duty, or fails if it had none;
    /// - a reset drops all aliases of the node but its own name, with their messages and
    ///   timer-service timers, ends every monitoring session, and asks the nodes that the
    ///   node launched to shut down, with a shutdown timer;
    /// - a monitor request starts a session for the sender;
    /// - a break pauses the core in interactive mode; a control message sets the state;
    /// - a subscription adds the node to the subscribers;
    /// - a launch request keeps every node and adds at most the requested one, launched
    ///   by the sender, whose process is asked for with the registered command of that
    ///   name; it is answered with a `launch_finished` message that carries no error
    ///   exactly when the node was added and sent its `init` message, and otherwise the
    ///   description of the launch error;
    /// - a log line of the node is logged under the message's source name;
    /// - an alias request registers the alias unless the name is taken.
    pub open spec fn request_handled(old: Self, new: Self, source_id: NodeId, message: Message, r: Result<(), CoreError>) -> bool {
        let p = message.body.payload;
        let allowed = may_send(old.spec_nodes()[source_id].capabilities, p);
        &&& (needs_capability(p) && !allowed) || !core_request(p) ==> {
            &&& new.spec_nodes() == old.spec_nodes()
            &&& new.spec_names() == old.spec_names()
            &&& new.spec_network() == old.spec_network()
            &&& new.spec_timers() == old.spec_timers()
            &&& new.spec_sessions() == old.spec_sessions()
            &&& new.spec_subscribers() == old.spec_subscribers()
            &&& new.spec_state() == old.spec_state()
        }
        &&& needs_capability(p) && !allowed ==> (r matches Err(CoreError::IllegalCoreMessage { name, message: m })
            && name@ == message.src@ && m == message)
        &&& !core_request(p) ==> (r matches Err(CoreError::UnknownCoreMessage { name, ty })
            && name@ == message.src@ && ty@ == message.body.ty@)
        &&& (p matches Payload::Timer { name, millis } ==> r is Ok && ({
            let d = old.spec_now().saturating_add(millis);
            let at = count_not_after(old.spec_timers(), d) as int;
            &&& new.spec_timers() == old.spec_timers().insert(at, new.spec_timers()[at])
            &&& new.spec_timers()[at].deadline == d
            &&& new.spec_timers()[at].kind matches TimerKind::TimerService { source, msg_id, name: n }
            &&& source@ == message.src@ && msg_id == message.body.id && n@ == name@
            &&& new.spec_nodes() == old.spec_nodes() && new.spec_network() == old.spec_network()
        }))
        &&& p is Register ==> new.spec_names() == old.spec_names() && (if old.spec_nodes()[source_id].requires_registration {
            r is Ok && new.spec_nodes() == old.spec_nodes().insert(
                source_id, Node { requires_registration: false, ..old.spec_nodes()[source_id] })
        } else {
            new.spec_nodes() == old.spec_nodes() && (r matches Err(CoreError::UnexpectedRegistration { name })
                && name@ == old.spec_nodes()[source_id].name@)
        })
        &&& p is Reset && allowed ==> r is Ok
            && new.spec_names() == kept_names(old.spec_names(), source_id, Some(old.spec_nodes()[source_id].name@))
            && new.spec_sessions().len() == 0
            && new.spec_network() == old.spec_network().filter(|m: MessageInTransit| !touches_aliases(
                old.spec_names(), source_id, old.spec_nodes()[source_id].name@, m))
            && ({
                let f = old.spec_timers().filter(|t: Timer| !alias_service_timer(
                    old.spec_names(), source_id, old.spec_nodes()[source_id].name@, t));
                let at = count_not_after(f, old.spec_now().saturating_add(SHUTDOWN_TIMEOUT_MILLIS)) as int;
                &&& new.spec_timers() == f.insert(at, new.spec_timers()[at])
                &&& new.spec_timers()[at].kind is ShutdownTimeout
            })
            && (forall|x: NodeId| #[trigger] old.spec_nodes().contains_key(x) && old.spec_nodes()[x].launched_by == Some(source_id)
                ==> exists|k: int| old.spec_outbox().len() <= k < new.spec_outbox().len()
                    && #[trigger] new.spec_outbox()[k] == (Outgoing { to: x, command: ProcessCommand::Shutdown }))
        &&& (p matches Payload::BeginMonitor { src_match, dst_match } ==> !allowed || (r is Ok
            && new.spec_sessions().drop_last() == old.spec_sessions()
            && new.spec_sessions().len() == old.spec_sessions().len() + 1
            && new.spec_sessions().last().source@ == message.src@
            && new.spec_sessions().last().src_match@ == src_match@
            && new.spec_sessions().last().dst_match@ == dst_match@))
        &&& p is Break && allowed ==> r is Ok
            && new.spec_state() == (if old.spec_interactive() { CoreState::Paused } else { old.spec_state() })
        &&& (p matches Payload::Control(c) ==> !allowed || ((c is Break ==> new.spec_state() == CoreState::Paused)
            && (c is Step ==> new.spec_state() == CoreState::Stepping)
            && (c is Resume ==> new.spec_state() == CoreState::Running)
            && (c matches Control::Drop { sent_timestamp } ==> new.spec_network() == spec_remove_one(old.spec_network(), sent_timestamp as nat).1)
            && (c matches Control::Deliver { sent_timestamp } ==> (spec_remove_one(old.spec_network(), sent_timestamp as nat).0 matches Some(m)
                ==> new.spec_network() == after_delivery(old.spec_nodes(), old.spec_names(),
                    spec_remove_one(old.spec_network(), sent_timestamp as nat).1, m.source)))
            && (c matches Control::Deliver { sent_timestamp } ==> (!holds_time(old.spec_network(), sent_timestamp as nat)
                ==> new.spec_network() == old.spec_network()))))
        &&& p is SubscribeEvents && allowed ==> new.spec_subscribers() == old.spec_subscribers().push(source_id)
        &&& Self::request_prompt(old, new, source_id, message, r, 8)
        &&& (p matches Payload::Launch { name, command_name, .. } ==> !allowed || ((forall|x: NodeId| #[trigger] old.spec_nodes().contains_key(x)
            ==> new.spec_nodes().contains_key(x) && new.spec_nodes()[x] == old.spec_nodes()[x])
            && (new.spec_nodes().dom() != old.spec_nodes().dom() ==> new.spec_names() == old.spec_names().insert(name@, new.spec_names()[name@])
                && new.spec_nodes()[new.spec_names()[name@]].launched_by == Some(source_id))
            && new.spec_spawn_requests() == (if has_command(old.spec_commands(), command_name@) && old.spec_next_node_id().0 < usize::MAX {
                old.spec_spawn_requests().push((old.spec_next_node_id(), command_named(old.spec_commands(), command_name@).command))
            } else {
                old.spec_spawn_requests()
            })
            && (old.spec_nodes()[source_id].name@ == old.spec_core_name() ==> r is Err)
            && (r is Ok ==> launch_finished(new.spec_outbox().last(), source_id, old.spec_core_name(), old.spec_nodes()[source_id].name@,
                answered_error(new.spec_outbox().last()) is Some))
            && (r is Ok && answered_error(new.spec_outbox().last()) is None ==> new.spec_nodes().dom() != old.spec_nodes().dom()
                && exists|k: int| old.spec_outbox().len() <= k < new.spec_outbox().len() && init_notice(
                    #[trigger] new.spec_outbox()[k], new.spec_names()[name@], old.spec_core_name(), name@))
            && (r is Ok ==> (answered_error(new.spec_outbox().last()) matches Some(t) ==> exists|e: CoreError| server_launch_error(
                e, old.spec_commands(), old.spec_names(), old.spec_core_name(), command_name@, name@) && t == describe_error(e, ""@)))))
        &&& (p matches Payload::Log(lm) ==> r is Ok && new.spec_log().len() == old.spec_log().len() + 1
            && new.spec_log().last().text@ == log_text(message.src@, old.spec_nodes()[source_id].name@, lm))
        &&& (p matches Payload::Alias { name } ==> !allowed || (new.spec_nodes() == old.spec_nodes()
            && new.spec_names() == (if old.spec_names().contains_key(name@) {
                old.spec_names()
            } else {
                old.spec_names().insert(name@, source_id)
            })))
    }

    /// A new builder for a core.
    pub fn builder() -> (b: Builder)
        ensures
            b.spec_commands().len() == 0,
            b.spec_launch_initial().len() == 0,
            !b.spec_interactive(),
            b.spec_core_name() == DEFAULT_CORE_NAME@,
    {
        Builder::new()
    }

    /// With `slack` logical timestamps left, a permitted launch request of the node
    /// `source_id`, not named like the core, is answered, and without an error when the
    /// requested node was added under a name other than the core's; and a permitted
    /// control message that delivers a message in transit to a known node succeeds.
    pub open spec fn request_prompt(old: Self, new: Self, source_id: NodeId, message: Message, r: Result<(), CoreError>, slack: int) -> bool {
        &&& message.body.payload matches Payload::Launch { name, .. } ==> (
            may_send(old.spec_nodes()[source_id].capabilities, message.body.payload)
            && old.spec_nodes()[source_id].name@ != old.spec_core_name() && old.spec_next_logical() + slack <= usize::MAX ==> {
                &&& r is Ok
                &&& new.spec_nodes().dom() != old.spec_nodes().dom() && name@ != old.spec_core_name()
                    ==> answered_error(new.spec_outbox().last()) is None
            })
        &&& message.body.payload matches Payload::Control(Control::Deliver { sent_timestamp }) ==> (
            may_send(old.spec_nodes()[source_id].capabilities, message.body.payload) && old.spec_next_logical() + slack <= usize::MAX
            ==> (spec_remove_one(old.spec_network(), sent_timestamp as nat).0 matches Some(m)
                ==> (old.spec_names().contains_key(m.message.dest@) ==> r is Ok)))
    }

    /// Creates a core from a builder: no nodes, no messages, paused in interactive mode
    /// and running otherwise.
    pub fn new(builder: Builder) -> (c: Self)
        ensures
            c.inv(),
            c.spec_core_name() == builder.spec_core_name(),
            c.spec_interactive() == builder.spec_interactive(),
            c.spec_state() == (if builder.spec_interactive() { CoreState::Paused } else { CoreState::Running }),
            c.spec_nodes() == Map::<NodeId, Node<P>>::empty(),
            c.spec_network().len() == 0,
            c.spec_timers().len() == 0,
            c.spec_outbox().len() == 0,
            c.spec_log().len() == 0,
            c.spec_commands() == builder.spec_commands(),
            c.spec_next_logical() == 0,
    {
        proof {
            use_type_invariant(&builder);
        }
        let interactive = builder.interactive;
        let c = Self {
            core_name: builder.core_name,
            launch_initial: builder.launch_initial,
            nodes: NodeManager::new(),
            commands: builder.commands,
            interactive,
            state: if interactive { CoreState::Paused } else { CoreState::Running },
            timestamp_source: TimestampSource::new(),
            monitor_sessions: Vec::new(),
            event_subscribers: Vec::new(),
            network: Network::new(NetworkOrder::Fifo),
            timer_manager: TimerManager::new(),
            next_node_id: NodeId::first(),
            spawn_requests: Ghost(Seq::empty()),
            now: 0,
            outbox: Vec::new(),
            log: Vec::new(),
        };
        proof {
            c.nodes.lemma_wf_facts();
        }
        c
    }

    /// The name of the core.
    pub fn core_name(&self) -> (s: &str)
        ensures
            s@ == self.spec_core_name(),
    {
        self.core_name.as_str()
    }

    /// The execution state.
    pub fn state(&self) -> (s: CoreState)
        ensures
            s == self.spec_state(),
    {
        self.state
    }

    /// Sets the driver's clock, in milliseconds; timers are set relative to it.
    pub fn set_now(&mut self, now: u64)
        requires
            old(self).inv(),
        ensures
            final(self).inv(),
            final(self).spec_now() == now,
            final(self).spec_nodes() == old(self).spec_nodes(),
            final(self).spec_network() == old(self).spec_network(),
            final(self).spec_state() == old(self).spec_state(),
    {
        self.now = now;
    }

    /// The deadline of the next timer, if any.
    pub fn next_deadline(&self) -> (d: Option<u64>)
        requires
            self.inv(),
        ensures
            self.spec_timers().len() == 0 ==> d is None,
            self.spec_timers().len() > 0 ==> d == Some(self.spec_timers()[0].deadline),
    {
        self.timer_manager.next_deadline()
    }

    /// Takes the commands waiting for the processes, in the order they were made.
    pub fn take_outbox(&mut self) -> (v: Vec<Outgoing>)
        requires
            old(self).inv(),
        ensures
            final(self).inv(),
            v@ == old(self).spec_outbox(),
            final(self).spec_outbox().len() == 0,
            final(self).spec_nodes() == old(self).spec_nodes(),
            final(self).spec_network() == old(self).spec_network(),
            final(self).spec_state() == old(self).spec_state(),
    {
        let mut v: Vec<Outgoing> = Vec::new();
        std::mem::swap(&mut v, &mut self.outbox);
        v
    }

    /// Takes the lines waiting for the log, in the order they were made.
    pub fn take_log(&mut self) -> (v: Vec<LogLine>)
        requires
            old(self).inv(),
        ensures
            final(self).inv(),
            v@ == old(self).spec_log(),
            final(self).spec_log().len() == 0,
            final(self).spec_nodes() == old(self).spec_nodes(),
            final(self).spec_network() == old(self).spec_network(),
            final(self).spec_state() == old(self).spec_state(),
            final(self).spec_outbox() == old(self).spec_outbox(),
    {
        let mut v: Vec<LogLine> = Vec::new();
        std::mem::swap(&mut v, &mut self.log);
        v
    }

    /// The number of nodes.
    pub fn num_nodes(&self) -> (n: usize)
        requires
            self.inv(),
        ensures
            n == self.spec_nodes().len(),
    {
        self.nodes.len()
    }

    /// The number of messages in transit.
    pub fn num_messages_in_transit(&self) -> (n: usize)
        ensures
            n == self.spec_network().len(),
    {
        self.network.len()
    }

    /// A new timestamp, or `None` when the logical clock is exhausted.
    fn tick(&mut self) -> (t: Option<Timestamp>)
        requires
            old(self).inv(),
        ensures
            final(self).inv(),
            *final(self) == (Core { timestamp_source: final(self).timestamp_source, ..*old(self) }),
            t is Some <==> old(self).timestamp_source.next_logical() < usize::MAX,
            match t {
                Some(ts) => ts.logical == old(self).timestamp_source.next_logical()
                    && final(self).timestamp_source.next_logical() == old(self).timestamp_source.next_logical() + 1,
                None => *final(self) == *old(self),
            },
    {
        if self.timestamp_source.peek_logical() < usize::MAX {
            Some(self.timestamp_source.now())
        } else {
            None
        }
    }

    /// Sends `event` to every subscriber, in the order they subscribed.
    fn publish_event(&mut self, event: Event)
        requires
            old(self).inv(),
        ensures
            forall|k: int| old(self).outbox@.len() <= k < final(self).outbox@.len() ==> is_notice(#[trigger] final(self).outbox@[k]),
            final(self).inv(),
            *final(self) == (Core { outbox: final(self).outbox, ..*old(self) }),
            final(self).outbox@.len() == old(self).outbox@.len() + old(self).event_subscribers@.len(),
            forall|i: int| 0 <= i < old(self).outbox@.len() ==> #[trigger] final(self).outbox@[i] == old(self).outbox@[i],
            forall|k: int| 0 <= k < old(self).event_subscribers@.len() ==> delivers(
                #[trigger] final(self).outbox@[old(self).outbox@.len() + k],
                old(self).event_subscribers@[k],
                old(self).core_name@,
                old(self).nodes.nodes()[old(self).event_subscribers@[k]].name@,
                Payload::PublishEvent(event),
            ),
    {
        let n = self.event_subscribers.len();
        let ghost o = self.outbox@;
        let mut k: usize = 0;
        while k < n
            invariant
                self.inv(),
                *self == (Core { outbox: self.outbox, ..*old(self) }),
                n == self.event_subscribers@.len(),
                0 <= k <= n,
                o == old(self).outbox@,
                self.outbox@.len() == o.len() + k,
                forall|i: int| 0 <= i < o.len() ==> #[trigger] self.outbox@[i] == o[i],
                forall|j: int| 0 <= j < k ==> delivers(
                    #[trigger] self.outbox@[o.len() + j],
                    self.event_subscribers@[j],
                    self.core_name@,
                    self.nodes.nodes()[self.event_subscribers@[j]].name@,
                    Payload::PublishEvent(event),
                ),
            decreases n - k,
        {
            let id = self.event_subscribers[k];
            let node = self.nodes.get(id).unwrap();
            let m = Message::new(self.core_name.as_str(), node.name.as_str(), Payload::PublishEvent(clone_event(&event)));
            self.outbox.push(Outgoing { to: id, command: ProcessCommand::Deliver(m) });
            proof {
                assert(self.outbox@[o.len() + k] == Outgoing { to: id, command: ProcessCommand::Deliver(m) });
                assert forall|j: int| 0 <= j < k + 1 implies delivers(
                    #[trigger] self.outbox@[o.len() + j],
                    self.event_subscribers@[j],
                    self.core_name@,
                    self.nodes.nodes()[self.event_subscribers@[j]].name@,
                    Payload::PublishEvent(event),
                ) by {
                }
            }
            k = k + 1;
        }
        proof {
            assert forall|i: int| o.len() <= i < self.outbox@.len() implies is_notice(#[trigger] self.outbox@[i]) by {
                let j = i - o.len();
                assert(delivers(self.outbox@[o.len() + j], self.event_subscribers@[j], self.core_name@,
                    self.nodes.nodes()[self.event_subscribers@[j]].name@, Payload::PublishEvent(event)));
            }
        }
    }
    /// Notifies every monitoring session that watches `message` that it was sent (no
    /// reference) or delivered (in reference to its send time) at `ts`. The notices go
    /// straight to the monitoring nodes, not through the network.
    fn send_monitor_event(&mut self, ts: Timestamp, message: &Message, in_reference_to: Option<usize>)
        requires
            old(self).inv(),
        ensures
            forall|k: int| old(self).outbox@.len() <= k < final(self).outbox@.len() ==> is_notice(#[trigger] final(self).outbox@[k]),
            final(self).inv(),
            *final(self) == (Core { outbox: final(self).outbox, ..*old(self) }),
            final(self).outbox@.len() == old(self).outbox@.len() + watching(old(self).monitor_sessions@, *message).len(),
            forall|i: int| 0 <= i < old(self).outbox@.len() ==> #[trigger] final(self).outbox@[i] == old(self).outbox@[i],
            forall|k: int| 0 <= k < watching(old(self).monitor_sessions@, *message).len() ==> monitor_notice(
                #[trigger] final(self).outbox@[old(self).outbox@.len() + k],
                old(self).nodes.names()[watching(old(self).monitor_sessions@, *message)[k].source@],
                old(self).core_name@,
                watching(old(self).monitor_sessions@, *message)[k].source@,
                ts,
                in_reference_to,
                *message,
            ),
    {
        let ghost o = self.outbox@;
        let ghost q = self.monitor_sessions@;
        let ghost pred = |s: MonitorSession| s.watches(*message);
        let n = self.monitor_sessions.len();
        let mut i: usize = 0;
        proof {
            reveal_with_fuel(Seq::filter, 1);
            assert(q.take(0) =~= Seq::<MonitorSession>::empty());
        }
        while i < n
            invariant
                self.inv(),
                *self == (Core { outbox: self.outbox, ..*old(self) }),
                n == q.len(),
                q == self.monitor_sessions@,
                o == old(self).outbox@,
                0 <= i <= n,
                pred == (|s: MonitorSession| s.watches(*message)),
                self.outbox@.len() == o.len() + q.take(i as int).filter(pred).len(),
                forall|j: int| 0 <= j < o.len() ==> #[trigger] self.outbox@[j] == o[j],
                forall|k: int| 0 <= k < q.take(i as int).filter(pred).len() ==> monitor_notice(
                    #[trigger] self.outbox@[o.len() + k],
                    self.nodes.names()[q.take(i as int).filter(pred)[k].source@],
                    self.core_name@,
                    q.take(i as int).filter(pred)[k].source@,
                    ts,
                    in_reference_to,
                    *message,
                ),
            decreases n - i,
        {
            let ghost before = q.take(i as int).filter(pred);
            proof {
                assert(q.take(i + 1).drop_last() =~= q.take(i as int));
                assert(q.take(i + 1).last() == q[i as int]);
                reveal_with_fuel(Seq::filter, 1);
            }
            if self.monitor_sessions[i].matches(message) {
                let session = &self.monitor_sessions[i];
                let id = self.nodes.lookup(session.source()).unwrap();
                let kind = if in_reference_to.is_some() { MonitorEventKind::Delivered } else { MonitorEventKind::Sent };
                let event = MonitorEvent {
                    kind,
                    timestamp_logical: ts.logical,
                    timestamp_physical: ts.physical,
                    in_reference_to,
                    message: Box::new(clone_message(message)),
                };
                let m = Message::new(self.core_name.as_str(), session.source(), Payload::MonitorEvent(event));
                self.outbox.push(Outgoing { to: id, command: ProcessCommand::Deliver(m) });
                proof {
                    let after = q.take(i + 1).filter(pred);
                    assert(after == before.push(q[i as int]));
                    assert forall|k: int| 0 <= k < after.len() implies monitor_notice(
                        #[trigger] self.outbox@[o.len() + k],
                        self.nodes.names()[after[k].source@],
                        self.core_name@,
                        after[k].source@,
                        ts,
                        in_reference_to,
                        *message,
                    ) by {
                        if k < before.len() {
                            assert(after[k] == before[k]);
                        } else {
                            assert(after[k] == q[i as int]);
                        }
                    }
                }
            } else {
                proof {
                    assert(q.take(i + 1).filter(pred) == before);
                }
            }
            i = i + 1;
        }
        proof {
            assert(q.take(n as int) =~= q);
            assert forall|i: int| o.len() <= i < self.outbox@.len() implies is_notice(#[trigger] self.outbox@[i]) by {
                let j = i - o.len();
                assert(monitor_notice(self.outbox@[o.len() + j], self.nodes.names()[q.filter(pred)[j].source@], self.core_name@,
                    q.filter(pred)[j].source@, ts, in_reference_to, *message));
            }
        }
    }
    /// Delivers `message`, sent at `sent`, to its destination node: the monitoring
    /// sessions and the subscribers are notified, then the message is handed to the
    /// destination's process. Fails if no node has the destination name.
    fn deliver_to(&mut self, sent: Timestamp, message: Message) -> (r: Result<(), CoreError>)
        requires
            old(self).inv(),
        ensures
            r matches Err(e) ==> e is DispatchError || e is ClockExhausted,
            r is Ok ==> forall|k: int| old(self).outbox@.len() <= k < final(self).outbox@.len() - 1 ==> is_notice(#[trigger] final(self).outbox@[k]),
            r is Err ==> forall|k: int| old(self).outbox@.len() <= k < final(self).outbox@.len() ==> is_notice(#[trigger] final(self).outbox@[k]),
            r is Ok ==> final(self).outbox@.len() == old(self).outbox@.len() + watching(old(self).monitor_sessions@, message).len()
                + old(self).event_subscribers@.len() + 1,
            r is Ok ==> forall|k: int| 0 <= k < old(self).event_subscribers@.len() ==> delivery_notice(
                #[trigger] final(self).outbox@[old(self).outbox@.len() + watching(old(self).monitor_sessions@, message).len() + k],
                old(self).event_subscribers@[k], old(self).core_name@, old(self).nodes.nodes()[old(self).event_subscribers@[k]].name@,
                sent.logical),
            final(self).inv(),
            *final(self) == (Core { outbox: final(self).outbox, timestamp_source: final(self).timestamp_source, ..*old(self) }),
            forall|i: int| 0 <= i < old(self).outbox@.len() ==> #[trigger] final(self).outbox@[i] == old(self).outbox@[i],
            final(self).outbox@.len() >= old(self).outbox@.len(),
            final(self).timestamp_source.next_logical() >= old(self).timestamp_source.next_logical(),
            r matches Err(e) ==> e is DispatchError || e is UnknownCoreMessage || e is ClockExhausted,
            r is Ok <==> old(self).nodes.names().contains_key(message.dest@) && old(self).timestamp_source.next_logical() < usize::MAX,
            !old(self).nodes.names().contains_key(message.dest@) ==> *final(self) == *old(self) && (r matches Err(
                CoreError::DispatchError { name, message: m, kind: DispatchErrorKind::DestinationUnknown },
            ) && name@ == message.src@ && m == message),
            old(self).nodes.names().contains_key(message.dest@) && old(self).timestamp_source.next_logical() == usize::MAX
                ==> (r matches Err(CoreError::ClockExhausted) && *final(self) == *old(self)),
            r is Ok ==> final(self).outbox@.len() > old(self).outbox@.len() && final(self).outbox@.last() == (Outgoing {
                to: old(self).nodes.names()[message.dest@],
                command: ProcessCommand::Deliver(message),
            }) && final(self).timestamp_source.next_logical() == old(self).timestamp_source.next_logical() + 1,
    {
        match self.nodes.lookup(message.dest.as_str()) {
            Some(dest_id) => {
                let ts = match self.tick() {
                    Some(ts) => ts,
                    None => return Err(CoreError::ClockExhausted),
                };
                self.send_monitor_event(ts, &message, Some(sent.logical));
                self.publish_event(Event { timestamp: ts, kind: EventKind::DeliverMessage { sent_timestamp: sent.logical } });
                self.outbox.push(Outgoing { to: dest_id, command: ProcessCommand::Deliver(message) });
                Ok(())
            },
            None => {
                let name = message.src.clone();
                Err(CoreError::DispatchError { name, message, kind: DispatchErrorKind::DestinationUnknown })
            },
        }
    }

    /// Sends `message` from the core: the subscribers learn that it was sent, and it is
    /// delivered at once, not through the network. A message from the core to the core
    /// is refused: the core handles none of the payloads it sends.
    fn dispatch_from_core(&mut self, message: Message) -> (r: Result<(), CoreError>)
        requires
            old(self).inv(),
            message.src@ == old(self).core_name@,
            core_originated(message.body.payload),
        ensures
            r is Ok ==> forall|k: int| old(self).outbox@.len() <= k < final(self).outbox@.len() - 1 ==> is_notice(#[trigger] final(self).outbox@[k]),
            r is Err ==> forall|k: int| old(self).outbox@.len() <= k < final(self).outbox@.len() ==> is_notice(#[trigger] final(self).outbox@[k]),
            r matches Err(CoreError::DispatchError { .. }) ==> !old(self).nodes.names().contains_key(message.dest@),
            r matches Err(CoreError::UnknownCoreMessage { name, ty }) ==> message.dest@ == old(self).core_name@
                && name@ == message.src@ && ty@ == message.body.ty@,
            final(self).timestamp_source.next_logical() <= old(self).timestamp_source.next_logical() + 3,
            final(self).inv(),
            *final(self) == (Core { outbox: final(self).outbox, timestamp_source: final(self).timestamp_source, ..*old(self) }),
            forall|i: int| 0 <= i < old(self).outbox@.len() ==> #[trigger] final(self).outbox@[i] == old(self).outbox@[i],
            final(self).outbox@.len() >= old(self).outbox@.len(),
            final(self).timestamp_source.next_logical() >= old(self).timestamp_source.next_logical(),
            r matches Err(e) ==> e is DispatchError || e is UnknownCoreMessage || e is ClockExhausted,
            message.dest@ == old(self).core_name@ ==> r is Err,
            message.dest@ == old(self).core_name@ && old(self).timestamp_source.next_logical() < usize::MAX
                ==> (r matches Err(CoreError::UnknownCoreMessage { name, ty }) && name@ == message.src@ && ty@ == message.body.ty@),
            message.dest@ != old(self).core_name@ && old(self).timestamp_source.next_logical() + 3 <= usize::MAX ==> {
                &&& (r is Ok <==> old(self).nodes.names().contains_key(message.dest@))
                &&& !old(self).nodes.names().contains_key(message.dest@) ==> (r matches Err(
                    CoreError::DispatchError { name, message: m, kind: DispatchErrorKind::DestinationUnknown },
                ) && name@ == message.src@ && m == message)
            },
            r is Ok ==> final(self).outbox@.len() > old(self).outbox@.len() && final(self).outbox@.last() == (Outgoing {
                to: old(self).nodes.names()[message.dest@],
                command: ProcessCommand::Deliver(message),
            }),
    {
        let ts = match self.tick() {
            Some(ts) => ts,
            None => return Err(CoreError::ClockExhausted),
        };
        self.publish_event(Event { timestamp: ts, kind: EventKind::SendMessage(Box::new(clone_message(&message))) });
        if str_eq(message.dest.as_str(), self.core_name.as_str()) {
            let name = message.src.clone();
            let ty = message.body.ty.clone();
            return Err(CoreError::UnknownCoreMessage { name, ty });
        }
        self.send_monitor_event(ts, &message, None);
        let now = match self.tick() {
            Some(now) => now,
            None => return Err(CoreError::ClockExhausted),
        };
        self.deliver_to(now, message)
    }
    /// Drops the monitoring sessions of the nodes named by `names`, keeping the others
    /// in their order.
    fn retain_sessions_not_of(&mut self, names: &Vec<String>)
        requires
            old(self).inv(),
        ensures
            final(self).inv(),
            *final(self) == (Core { monitor_sessions: final(self).monitor_sessions, ..*old(self) }),
            final(self).monitor_sessions@ == old(self).monitor_sessions@.filter(|s: MonitorSession| !has_str(names@, s.source@)),
    {
        let ghost q = self.monitor_sessions@;
        let ghost pred = |s: MonitorSession| !has_str(names@, s.source@);
        let n = self.monitor_sessions.len();
        let mut rest: Vec<MonitorSession> = Vec::new();
        std::mem::swap(&mut rest, &mut self.monitor_sessions);
        let mut kept: Vec<MonitorSession> = Vec::new();
        let mut i: usize = 0;
        proof {
            reveal_with_fuel(Seq::filter, 1);
            assert(q.take(0) =~= Seq::<MonitorSession>::empty());
            assert(rest@ =~= q.skip(0));
        }
        while i < n
            invariant
                n == q.len(),
                0 <= i <= n,
                rest@ == q.skip(i as int),
                kept@ == q.take(i as int).filter(pred),
                pred == (|s: MonitorSession| !has_str(names@, s.source@)),
            decreases n - i,
        {
            let m = rest.remove(0);
            proof {
                assert(m == q[i as int]);
                assert(rest@ =~= q.skip(i + 1));
                assert(q.take(i + 1).drop_last() =~= q.take(i as int));
                assert(q.take(i + 1).last() == m);
                reveal_with_fuel(Seq::filter, 1);
            }
            if !contains_str(names, m.source.as_str()) {
                kept.push(m);
            }
            i = i + 1;
        }
        proof {
            assert(q.take(n as int) =~= q);
            crate::seq_facts::lemma_filter_subset(q, pred);
        }
        self.monitor_sessions = kept;
        proof {
            let k = self.monitor_sessions@;
            assert forall|j: int| 0 <= j < k.len() implies self.nodes.names().contains_key((#[trigger] k[j]).source@) by {
                assert(q.contains(k[j]));
            }
        }
    }

    /// Drops `id` from the event subscribers, keeping the others in their order.
    fn remove_subscriber(&mut self, id: NodeId)
        requires
            old(self).nodes.wf(),
        ensures
            *final(self) == (Core { event_subscribers: final(self).event_subscribers, ..*old(self) }),
            final(self).event_subscribers@ == old(self).event_subscribers@.filter(|x: NodeId| x != id),
    {
        let ghost q = self.event_subscribers@;
        let ghost pred = |x: NodeId| x != id;
        let n = self.event_subscribers.len();
        let mut kept: Vec<NodeId> = Vec::new();
        let mut i: usize = 0;
        proof {
            reveal_with_fuel(Seq::filter, 1);
            assert(q.take(0) =~= Seq::<NodeId>::empty());
        }
        while i < n
            invariant
                n == q.len(),
                q == self.event_subscribers@,
                0 <= i <= n,
                kept@ == q.take(i as int).filter(pred),
                pred == (|x: NodeId| x != id),
            decreases n - i,
        {
            let x = self.event_subscribers[i];
            proof {
                assert(q.take(i + 1).drop_last() =~= q.take(i as int));
                assert(q.take(i + 1).last() == x);
                reveal_with_fuel(Seq::filter, 1);
            }
            if x != id {
                kept.push(x);
            }
            i = i + 1;
        }
        proof {
            assert(q.take(n as int) =~= q);
        }
        self.event_subscribers = kept;
    }

    /// Drops every message from or to one of `names`, the monitoring sessions of those
    /// names and the timer-service timers named by them.
    fn cleanup_aliases(&mut self, names: &Vec<String>)
        requires
            old(self).inv(),
        ensures
            final(self).inv(),
            *final(self) == (Core {
                network: final(self).network,
                monitor_sessions: final(self).monitor_sessions,
                timer_manager: final(self).timer_manager,
                ..*old(self)
            }),
            final(self).network@ == old(self).network@.filter(|m: MessageInTransit| !touches(names@, m)),
            final(self).network.order() == old(self).network.order(),
            final(self).monitor_sessions@ == old(self).monitor_sessions@.filter(|s: MonitorSession| !has_str(names@, s.source@)),
            final(self).timer_manager@ == old(self).timer_manager@.filter(|t: Timer| !service_named(names@, t)),
    {
        let ghost q = self.network@;
        let ghost tq = self.timer_manager@;
        self.network.retain_not_touching(names);
        proof {
            crate::seq_facts::lemma_filter_subset(q, |m: MessageInTransit| !touches(names@, m));
        }
        self.retain_sessions_not_of(names);
        let filter = TimerFilter::AllButServicesNamed(clone_strings(names));
        self.timer_manager.retain(&filter);
        proof {
            assert((|t: Timer| keeps(filter, t)) =~= (|t: Timer| !service_named(names@, t)));
            crate::seq_facts::lemma_filter_subset(tq, |t: Timer| !service_named(names@, t));
        }
    }
    /// Removes the node `id` with all its names: its process is aborted unless it has
    /// finished, the messages from and to its names are dropped, as are the monitoring
    /// sessions of its names, its timers and its event subscription.
    #[verifier::spinoff_prover]
    #[verifier::rlimit(40)]
    fn cleanup_node(&mut self, id: NodeId)
        requires
            old(self).inv(),
            old(self).nodes.nodes().contains_key(id),
        ensures
            final(self).inv(),
            *final(self) == (Core {
                nodes: final(self).nodes,
                network: final(self).network,
                monitor_sessions: final(self).monitor_sessions,
                timer_manager: final(self).timer_manager,
                event_subscribers: final(self).event_subscribers,
                outbox: final(self).outbox,
                ..*old(self)
            }),
            final(self).nodes.nodes() == old(self).nodes.nodes().remove(id),
            final(self).nodes.names() == kept_names(old(self).nodes.names(), id, None),
            final(self).network@ == old(self).network@.filter(|m: MessageInTransit| !touches_node(old(self).nodes.names(), id, m)),
            final(self).network.order() == old(self).network.order(),
            final(self).monitor_sessions@ == old(self).monitor_sessions@.filter(
                |s: MonitorSession| !refers_to(old(self).nodes.names(), s.source@, id),
            ),
            final(self).timer_manager@ == old(self).timer_manager@.filter(|t: Timer| !timer_of(old(self).nodes.names(), id, t)),
            final(self).event_subscribers@ == old(self).event_subscribers@.filter(|x: NodeId| x != id),
            final(self).outbox@ == (if old(self).nodes.nodes()[id].exit_status is Running {
                old(self).outbox@.push(Outgoing { to: id, command: ProcessCommand::Abort })
            } else {
                old(self).outbox@
            }),
    {
        let ghost names = self.nodes.names();
        let ghost nodes = self.nodes.nodes();
        let ghost q = self.network@;
        let ghost sq = self.monitor_sessions@;
        let ghost tq = self.timer_manager@;
        proof {
            self.nodes.lemma_wf_facts();
        }
        let finished = self.nodes.get(id).unwrap().has_ended();
        if !finished {
            self.outbox.push(Outgoing { to: id, command: ProcessCommand::Abort });
        }
        let aliases = self.nodes.aliases_of(id);
        proof {
            assert forall|x: Seq<char>| has_str(aliases@, x) <==> refers_to(names, x, id) by {
                if has_str(aliases@, x) {
                    let k = choose|k: int| 0 <= k < aliases@.len() && (#[trigger] aliases@[k])@ == x;
                }
            }
            assert((|m: MessageInTransit| !touches(aliases@, m)) =~= (|m: MessageInTransit| !touches_node(names, id, m))) by {
                assert forall|m: MessageInTransit| touches(aliases@, m) <==> touches_node(names, id, m) by {
                    if touches(aliases@, m) {
                        let k = choose|k: int| 0 <= k < aliases@.len()
                            && ((#[trigger] aliases@[k])@ == m.message.src@ || aliases@[k]@ == m.message.dest@);
                        assert(has_str(aliases@, aliases@[k]@));
                    }
                    if refers_to(names, m.message.src@, id) {
                        assert(has_str(aliases@, m.message.src@));
                    }
                    if refers_to(names, m.message.dest@, id) {
                        assert(has_str(aliases@, m.message.dest@));
                    }
                }
            }
            assert((|s: MonitorSession| !has_str(aliases@, s.source@)) =~= (|s: MonitorSession| !refers_to(names, s.source@, id)));
        }
        self.cleanup_aliases(&aliases);
        let ghost tq1 = self.timer_manager@;
        self.nodes.remove(id);
        let filter = TimerFilter::AllButRegistryOf(id);
        self.timer_manager.retain(&filter);
        self.remove_subscriber(id);
        proof {
            let p1 = |t: Timer| !service_named(aliases@, t);
            let p2 = |t: Timer| keeps(filter, t);
            let p = |t: Timer| !timer_of(names, id, t);
            assert forall|t: Timer| #[trigger] p(t) == (p1(t) && p2(t)) by {
                match t.kind {
                    TimerKind::TimerService { name, .. } => {
                        assert(has_str(aliases@, name@) <==> refers_to(names, name@, id));
                    },
                    _ => {},
                }
            }
            crate::seq_facts::lemma_filter_twice(tq, p1, p2, p);
            let nq = self.network@;
            crate::seq_facts::lemma_filter_subset(q, |m: MessageInTransit| !touches_node(names, id, m));
            assert forall|i: int| 0 <= i < nq.len() implies match (#[trigger] nq[i]).source {
                Some(sid) => self.nodes.names().contains_key(nq[i].message.src@) && self.nodes.names()[nq[i].message.src@] == sid,
                None => true,
            } by {
                assert(q.contains(nq[i]));
            }
            let ns = self.monitor_sessions@;
            crate::seq_facts::lemma_filter_subset(sq, |s: MonitorSession| !refers_to(names, s.source@, id));
            assert forall|k: int| 0 <= k < ns.len() implies self.nodes.names().contains_key((#[trigger] ns[k]).source@) by {
                assert(sq.contains(ns[k]));
            }
            let subs = self.event_subscribers@;
            crate::seq_facts::lemma_filter_subset(old(self).event_subscribers@, |x: NodeId| x != id);
            assert forall|k: int| 0 <= k < subs.len() implies self.nodes.nodes().contains_key(#[trigger] subs[k]) by {
                assert(old(self).event_subscribers@.contains(subs[k]));
            }
            let nt = self.timer_manager@;
            crate::seq_facts::lemma_filter_subset(tq, p);
            assert forall|i: int| 0 <= i < nt.len() implies match (#[trigger] nt[i]).kind {
                TimerKind::ExpectRegistry { node_id } => self.nodes.nodes().contains_key(node_id),
                _ => true,
            } by {
                assert(tq.contains(nt[i]));
            }
        }
    }
    /// Asks every node that `sel` concerns to shut down, and sets a timer after which
    /// those that have not are terminated. Returns the number of those nodes.
    #[verifier::spinoff_prover]
    fn begin_shutdown_timeout(&mut self, sel: ShutdownSelection) -> (count: usize)
        requires
            old(self).inv(),
        ensures
            final(self).inv(),
            *final(self) == (Core { outbox: final(self).outbox, timer_manager: final(self).timer_manager, ..*old(self) }),
            final(self).outbox@.len() == old(self).outbox@.len() + count,
            forall|i: int| 0 <= i < old(self).outbox@.len() ==> #[trigger] final(self).outbox@[i] == old(self).outbox@[i],
            forall|j: int| 0 <= j < count ==> {
                let o = #[trigger] final(self).outbox@[old(self).outbox@.len() + j];
                &&& o.command is Shutdown
                &&& old(self).nodes.nodes().contains_key(o.to)
                &&& selects(sel, old(self).nodes.nodes()[o.to])
            },
            forall|id: NodeId| #[trigger] old(self).nodes.nodes().contains_key(id) && selects(sel, old(self).nodes.nodes()[id])
                ==> exists|j: int| 0 <= j < count && (#[trigger] final(self).outbox@[old(self).outbox@.len() + j]).to == id,
            ({
                let d = old(self).now.saturating_add(SHUTDOWN_TIMEOUT_MILLIS);
                let at = count_not_after(old(self).timer_manager@, d) as int;
                &&& final(self).timer_manager@ == old(self).timer_manager@.insert(at, final(self).timer_manager@[at])
                &&& final(self).timer_manager@[at].deadline == d
                &&& final(self).timer_manager@[at].kind matches TimerKind::ShutdownTimeout { node_ids }
                &&& node_ids@.len() == count
                &&& forall|j: int| 0 <= j < count ==> #[trigger] node_ids@[j] == final(self).outbox@[old(self).outbox@.len() + j].to
            }),
    {
        proof {
            self.nodes.lemma_wf_facts();
        }
        let ghost o = self.outbox@;
        let all = self.nodes.node_ids();
        let n = all.len();
        let mut ids: Vec<NodeId> = Vec::new();
        let mut i: usize = 0;
        while i < n
            invariant
                self.inv(),
                *self == (Core { outbox: self.outbox, ..*old(self) }),
                o == old(self).outbox@,
                n == all@.len(),
                0 <= i <= n,
                forall|id: NodeId| #[trigger] self.nodes.nodes().contains_key(id) <==> all@.contains(id),
                self.outbox@.len() == o.len() + ids@.len(),
                forall|j: int| 0 <= j < o.len() ==> #[trigger] self.outbox@[j] == o[j],
                forall|j: int| 0 <= j < ids@.len() ==> #[trigger] self.outbox@[o.len() + j] == (Outgoing { to: ids@[j], command: ProcessCommand::Shutdown }),
                forall|j: int| 0 <= j < ids@.len() ==> self.nodes.nodes().contains_key(#[trigger] ids@[j])
                    && selects(sel, self.nodes.nodes()[ids@[j]]),
                forall|k: int| 0 <= k < i && selects(sel, self.nodes.nodes()[#[trigger] all@[k]]) ==> ids@.contains(all@[k]),
            decreases n - i,
        {
            let id = all[i];
            assert(all@.contains(id));
            let node = self.nodes.get(id).unwrap();
            let chosen = match sel {
                ShutdownSelection::All => true,
                ShutdownSelection::LaunchedBy(by) => match node.launched_by {
                    Some(l) => l == by,
                    None => false,
                },
            };
            if chosen {
                let ghost prev = ids@;
                self.outbox.push(Outgoing { to: id, command: ProcessCommand::Shutdown });
                ids.push(id);
                proof {
                    assert(ids@[ids@.len() - 1] == id);
                    assert forall|k: int| 0 <= k < i + 1 && selects(sel, self.nodes.nodes()[#[trigger] all@[k]]) implies ids@.contains(all@[k]) by {
                        if k < i {
                            assert(prev.contains(all@[k]));
                            let j = choose|j: int| 0 <= j < prev.len() && prev[j] == all@[k];
                            assert(ids@[j] == all@[k]);
                        }
                    }
                }
            }
            i = i + 1;
        }
        let count = ids.len();
        proof {
            assert forall|id: NodeId| #[trigger] self.nodes.nodes().contains_key(id) && selects(sel, self.nodes.nodes()[id])
                implies exists|j: int| 0 <= j < count && (#[trigger] self.outbox@[o.len() + j]).to == id by {
                let k = choose|k: int| 0 <= k < n && all@[k] == id;
                assert(ids@.contains(all@[k]));
                let j = choose|j: int| 0 <= j < ids@.len() && ids@[j] == id;
                assert(self.outbox@[o.len() + j].to == id);
            }
        }
        let ghost ids_view = ids@;
        let deadline = self.now.saturating_add(SHUTDOWN_TIMEOUT_MILLIS);
        self.timer_manager.add(deadline, TimerKind::ShutdownTimeout { node_ids: ids });
        proof {
            let at = count_not_after(old(self).timer_manager@, deadline) as int;
            let t = self.timer_manager@;
            assert(t[at].kind matches TimerKind::ShutdownTimeout { node_ids } && node_ids@ == ids_view);
            assert forall|i: int| 0 <= i < t.len() implies match (#[trigger] t[i]).kind {
                TimerKind::ExpectRegistry { node_id } => self.nodes.nodes().contains_key(node_id),
                _ => true,
            } by {
                if i < at {
                    assert(t[i] == old(self).timer_manager@[i]);
                } else if i > at {
                    assert(t[i] == old(self).timer_manager@[i - 1]);
                }
            }
        }
        count
    }
    /// Returns `true` if some node was launched by the node `by`.
    fn launched_any(&self, by: NodeId) -> (b: bool)
        requires
            self.inv(),
        ensures
            b == exists|x: NodeId| #[trigger] self.nodes.nodes().contains_key(x) && self.nodes.nodes()[x].launched_by == Some(by),
    {
        let all = self.nodes.node_ids();
        let n = all.len();
        let mut i: usize = 0;
        while i < n
            invariant
                self.inv(),
                n == all@.len(),
                0 <= i <= n,
                forall|id: NodeId| #[trigger] self.nodes.nodes().contains_key(id) <==> all@.contains(id),
                forall|k: int| 0 <= k < i ==> self.nodes.nodes()[#[trigger] all@[k]].launched_by != Some(by),
            decreases n - i,
        {
            let id = all[i];
            assert(all@.contains(id));
            let node = self.nodes.get(id).unwrap();
            match node.launched_by {
                Some(l) => {
                    if l == by {
                        return true;
                    }
                },
                None => {},
            }
            i = i + 1;
        }
        proof {
            assert forall|x: NodeId| #[trigger] self.nodes.nodes().contains_key(x) implies self.nodes.nodes()[x].launched_by != Some(by) by {
                let k = choose|k: int| 0 <= k < n && all@[k] == x;
            }
        }
        false
    }

    /// Ends the reset of the node `id`: it is told that the reset has finished.
    fn finish_reset(&mut self, id: NodeId)
        requires
            old(self).inv(),
            old(self).nodes.nodes().contains_key(id),
        ensures
            final(self).inv(),
            *final(self) == (Core { nodes: final(self).nodes, outbox: final(self).outbox, ..*old(self) }),
            final(self).nodes.names() == old(self).nodes.names(),
            final(self).nodes.nodes() == old(self).nodes.nodes().insert(id, Node { reset_requested: false, ..old(self).nodes.nodes()[id] }),
            final(self).outbox@.len() == old(self).outbox@.len() + 1,
            final(self).outbox@.drop_last() == old(self).outbox@,
            delivers(final(self).outbox@.last(), id, old(self).core_name@, old(self).nodes.nodes()[id].name@, Payload::ResetFinished),
    {
        self.nodes.set_reset_requested(id, false);
        let node = self.nodes.get(id).unwrap();
        let m = Message::new(self.core_name.as_str(), node.name.as_str(), Payload::ResetFinished);
        self.outbox.push(Outgoing { to: id, command: ProcessCommand::Deliver(m) });
        proof {
            assert(self.outbox@.drop_last() =~= old(self).outbox@);
            assert forall|id2: NodeId| #[trigger] self.nodes.nodes().contains_key(id2) <==> old(self).nodes.nodes().contains_key(id2) by {}
        }
    }

    /// Ends the reset of the node `id` if it asked for one and no node it launched is
    /// left.
    fn check_finish_reset(&mut self, id: NodeId)
        requires
            old(self).inv(),
        ensures
            final(self).inv(),
            ({
                let due = old(self).nodes.nodes().contains_key(id) && old(self).nodes.nodes()[id].reset_requested
                    && !exists|x: NodeId| #[trigger] old(self).nodes.nodes().contains_key(x) && old(self).nodes.nodes()[x].launched_by == Some(id);
                &&& !due ==> *final(self) == *old(self)
                &&& due ==> *final(self) == (Core { nodes: final(self).nodes, outbox: final(self).outbox, ..*old(self) })
                    && final(self).nodes.names() == old(self).nodes.names()
                    && final(self).nodes.nodes() == old(self).nodes.nodes().insert(id, Node { reset_requested: false, ..old(self).nodes.nodes()[id] })
                    && final(self).outbox@.drop_last() == old(self).outbox@
                    && final(self).outbox@.len() == old(self).outbox@.len() + 1
                    && delivers(final(self).outbox@.last(), id, old(self).core_name@, old(self).nodes.nodes()[id].name@, Payload::ResetFinished)
            }),
    {
        let requested = match self.nodes.get(id) {
            Some(node) => node.reset_requested,
            None => return,
        };
        if !requested {
            return;
        }
        if self.launched_any(id) {
            return;
        }
        self.finish_reset(id);
    }

    /// Once the node `id` has finished and none of its messages is in transit: tells the
    /// node that launched it, if it asked to know, that it has exited, removes it, and
    /// ends the reset of the launching node if that was the last node it waited for.
    /// Fails only if the notice cannot be sent.
    #[verifier::spinoff_prover]
    fn check_exited(&mut self, id: NodeId) -> (r: Result<(), CoreError>)
        requires
            old(self).inv(),
        ensures
            forall|k2: int| old(self).outbox@.len() <= k2 < final(self).outbox@.len() && exited_payload(#[trigger] final(self).outbox@[k2]) ==> {
                &&& exit_due(old(self).nodes.nodes(), old(self).network@, id)
                &&& old(self).nodes.nodes()[id].exited_message_requested
                &&& old(self).nodes.nodes()[id].exit_status is Exited
                &&& old(self).nodes.nodes()[id].launched_by is Some
                &&& old(self).nodes.nodes().contains_key(old(self).nodes.nodes()[id].launched_by->0)
                &&& forall|k3: int| old(self).outbox@.len() <= k3 < final(self).outbox@.len() && exited_payload(#[trigger] final(self).outbox@[k3]) ==> k3 == k2
            },
            final(self).inv(),
            final(self).core_name == old(self).core_name,
            final(self).commands == old(self).commands,
            final(self).state == old(self).state,
            final(self).interactive == old(self).interactive,
            final(self).next_node_id == old(self).next_node_id,
            final(self).now == old(self).now,
            final(self).log == old(self).log,
            final(self).network.order() == old(self).network.order(),
            final(self).timestamp_source.next_logical() >= old(self).timestamp_source.next_logical(),
            forall|i: int| 0 <= i < old(self).outbox@.len() ==> #[trigger] final(self).outbox@[i] == old(self).outbox@[i],
            final(self).outbox@.len() >= old(self).outbox@.len(),
            r matches Err(e) ==> e is DispatchError || e is UnknownCoreMessage || e is ClockExhausted,
            !exit_due(old(self).nodes.nodes(), old(self).network@, id) ==> *final(self) == *old(self) && r is Ok,
            exit_due(old(self).nodes.nodes(), old(self).network@, id) ==> {
                &&& final(self).nodes.nodes().dom() == old(self).nodes.nodes().dom().remove(id)
                &&& forall|x: NodeId| #[trigger] final(self).nodes.nodes().contains_key(x) ==> final(self).nodes.nodes()[x] == (Node {
                    reset_requested: final(self).nodes.nodes()[x].reset_requested,
                    ..old(self).nodes.nodes()[x]
                })
                &&& final(self).nodes.names() == kept_names(old(self).nodes.names(), id, None)
                &&& final(self).network@ == old(self).network@.filter(|m: MessageInTransit| !touches_node(old(self).nodes.names(), id, m))
            },
            r is Err ==> exit_due(old(self).nodes.nodes(), old(self).network@, id) && old(self).nodes.nodes()[id].exited_message_requested
                && old(self).nodes.nodes()[id].exit_status is Exited && old(self).nodes.nodes()[id].launched_by is Some
                && old(self).nodes.nodes().contains_key(old(self).nodes.nodes()[id].launched_by->0),
            exit_due(old(self).nodes.nodes(), old(self).network@, id) && old(self).nodes.nodes()[id].exited_message_requested ==> (
                old(self).nodes.nodes()[id].launched_by matches Some(l) ==> (old(self).nodes.nodes()[id].exit_status matches ExitStatus::Exited(code)
                ==> (old(self).nodes.nodes().contains_key(l) ==> {
                    &&& old(self).nodes.nodes()[l].name@ == old(self).core_name@ ==> r is Err
                    &&& old(self).nodes.nodes()[l].name@ != old(self).core_name@ && old(self).timestamp_source.next_logical() + 3 <= usize::MAX
                        ==> r is Ok && exists|k: int| old(self).outbox@.len() <= k < final(self).outbox@.len() && exited_notice(
                            #[trigger] final(self).outbox@[k], l, old(self).core_name@, old(self).nodes.nodes()[l].name@,
                            old(self).nodes.nodes()[id].name@, code)
                }))),
    {
        let node = match self.nodes.get(id) {
            Some(node) => node,
            None => return Ok(()),
        };
        if !node.has_ended() {
            return Ok(());
        }
        if self.network.has_remaining_messages(id) {
            return Ok(());
        }
        let launched_by = node.launched_by;
        let mut result: Result<(), CoreError> = Ok(());
        let ghost mut sent = false;
        proof {
            self.nodes.lemma_wf_facts();
        }
        if node.exited_message_requested {
            match launched_by {
                Some(l) => match self.nodes.get(l) {
                    Some(launcher) => match node.exit_code() {
                        Some(exit_code) => {
                            let m = Message::new(
                                self.core_name.as_str(),
                                launcher.name.as_str(),
                                Payload::Exited { name: node.name.clone(), exit_code },
                            );
                            result = self.dispatch_from_core(m);
                            proof {
                                sent = true;
                            }
                        },
                        None => {},
                    },
                    None => {},
                },
                None => {},
            }
        }
        let ghost mid = *self;
        self.cleanup_node(id);
        let ghost after = *self;
        match launched_by {
            Some(l) => self.check_finish_reset(l),
            None => {},
        }
        proof {
            let n = old(self).nodes.nodes()[id];
            if n.exited_message_requested && n.launched_by is Some && n.exit_status is Exited {
                let l = n.launched_by->0;
                if old(self).nodes.nodes().contains_key(l) && result is Ok {
                    let k = mid.outbox@.len() - 1;
                    assert(mid.outbox@[k] == after.outbox@[k]);
                    if self.outbox@ != after.outbox@ {
                        assert(self.outbox@.drop_last()[k] == self.outbox@[k]);
                    }
                    assert(exited_notice(self.outbox@[k], l, old(self).core_name@, old(self).nodes.nodes()[l].name@,
                        n.name@, n.exit_status->Exited_0));
                }
            }
            assert(!sent ==> mid.outbox@ == old(self).outbox@);
            assert(after.outbox@ == mid.outbox@);
            assert forall|k2: int| old(self).outbox@.len() <= k2 < self.outbox@.len() && exited_payload(#[trigger] self.outbox@[k2])
                implies sent && result is Ok && k2 == mid.outbox@.len() - 1 by {
                if k2 >= after.outbox@.len() {
                    assert(k2 == self.outbox@.len() - 1);
                    assert(!exited_payload(self.outbox@.last()));
                } else {
                    assert(self.outbox@[k2] == mid.outbox@[k2]) by {
                        if self.outbox@ != after.outbox@ {
                            assert(self.outbox@.drop_last()[k2] == self.outbox@[k2]);
                        }
                    }
                    if !sent {
                    } else if result is Err {
                        assert(is_notice(mid.outbox@[k2]));
                    } else if k2 < mid.outbox@.len() - 1 {
                        assert(is_notice(mid.outbox@[k2]));
                    }
                }
            }
            assert(after.nodes.nodes() == old(self).nodes.nodes().remove(id));
            assert(self.nodes.nodes().dom() =~= after.nodes.nodes().dom());
            assert(self.nodes.nodes().dom() =~= old(self).nodes.nodes().dom().remove(id));
            assert forall|i: int| 0 <= i < old(self).outbox@.len() implies #[trigger] self.outbox@[i] == old(self).outbox@[i] by {
                assert(mid.outbox@[i] == old(self).outbox@[i]);
                assert(after.outbox@[i] == mid.outbox@[i]);
                if self.outbox@ != after.outbox@ {
                    assert(self.outbox@.drop_last()[i] == self.outbox@[i]);
                }
            }
        }
        result
    }
    /// Delivers `message`, sent at `sent` by the node `source` (or by the core), to its
    /// destination node, then removes the sender if it has finished and this was its
    /// last message in transit.
    fn deliver(&mut self, sent: Timestamp, source: Option<NodeId>, message: Message) -> (r: Result<(), CoreError>)
        requires
            old(self).inv(),
        ensures
            old(self).nodes.names().contains_key(message.dest@) && old(self).timestamp_source.next_logical() < usize::MAX ==> ({
                let at = (old(self).outbox@.len() + watching(old(self).monitor_sessions@, message).len() + old(self).event_subscribers@.len()) as int;
                &&& final(self).outbox@[at] == (Outgoing { to: old(self).nodes.names()[message.dest@], command: ProcessCommand::Deliver(message) })
                &&& forall|k: int| old(self).outbox@.len() <= k < at ==> is_notice(#[trigger] final(self).outbox@[k])
            }),
            r is Ok <==> old(self).nodes.names().contains_key(message.dest@) && old(self).timestamp_source.next_logical() < usize::MAX,
            r matches Err(e) ==> e is DispatchError || e is ClockExhausted,
            old(self).nodes.names().contains_key(message.dest@) && old(self).timestamp_source.next_logical() < usize::MAX
                ==> forall|k: int| 0 <= k < old(self).event_subscribers@.len() ==> delivery_notice(
                #[trigger] final(self).outbox@[old(self).outbox@.len() + watching(old(self).monitor_sessions@, message).len() + k],
                old(self).event_subscribers@[k], old(self).core_name@, old(self).nodes.nodes()[old(self).event_subscribers@[k]].name@,
                sent.logical),
            final(self).network@ == after_delivery(old(self).nodes.nodes(), old(self).nodes.names(), old(self).network@, source),
            final(self).nodes.nodes().dom().subset_of(old(self).nodes.nodes().dom()),
            final(self).inv(),
            final(self).core_name == old(self).core_name,
            final(self).commands == old(self).commands,
            final(self).state == old(self).state,
            final(self).interactive == old(self).interactive,
            final(self).next_node_id == old(self).next_node_id,
            final(self).now == old(self).now,
            forall|i: int| 0 <= i < old(self).log@.len() ==> #[trigger] final(self).log@[i] == old(self).log@[i],
            final(self).log@.len() >= old(self).log@.len(),
            final(self).network.order() == old(self).network.order(),
            final(self).timestamp_source.next_logical() >= old(self).timestamp_source.next_logical(),
            forall|i: int| 0 <= i < old(self).outbox@.len() ==> #[trigger] final(self).outbox@[i] == old(self).outbox@[i],
            final(self).outbox@.len() >= old(self).outbox@.len(),
            !old(self).nodes.names().contains_key(message.dest@) ==> (r matches Err(
                CoreError::DispatchError { name, message: m, kind: DispatchErrorKind::DestinationUnknown },
            ) && name@ == message.src@ && m == message),
            old(self).nodes.names().contains_key(message.dest@) && old(self).timestamp_source.next_logical() < usize::MAX ==> exists|k: int|
                old(self).outbox@.len() <= k < final(self).outbox@.len() && #[trigger] final(self).outbox@[k] == (Outgoing {
                    to: old(self).nodes.names()[message.dest@],
                    command: ProcessCommand::Deliver(message),
                }),
    {
        let ghost m = message;
        let ghost dest = message.dest@;
        let r = self.deliver_to(sent, message);
        let ghost mid = *self;
        let ok = r.is_ok();
        let checked = match source {
            Some(id) => self.check_exited(id),
            None => Ok(()),
        };
        proof {
            if old(self).nodes.names().contains_key(dest) && old(self).timestamp_source.next_logical() < usize::MAX {
                let k = mid.outbox@.len() - 1;
                assert(mid.outbox@[k] == self.outbox@[k]);
                let w = watching(old(self).monitor_sessions@, m).len();
                assert forall|k: int| 0 <= k < old(self).event_subscribers@.len() implies delivery_notice(
                    #[trigger] self.outbox@[old(self).outbox@.len() + w + k],
                    old(self).event_subscribers@[k], old(self).core_name@, old(self).nodes.nodes()[old(self).event_subscribers@[k]].name@,
                    sent.logical) by {
                    assert(self.outbox@[old(self).outbox@.len() + w + k] == mid.outbox@[old(self).outbox@.len() + w + k]);
                }
            }
        }
        if ok {
            match checked {
                Ok(()) => {},
                Err(e) => {
                    let ghost before_log = *self;
                    self.record_error(&e, "");
                    proof {
                        if old(self).nodes.names().contains_key(dest) && old(self).timestamp_source.next_logical() < usize::MAX {
                            let k = mid.outbox@.len() - 1;
                            assert(before_log.outbox@[k] == self.outbox@[k]);
                            let w = watching(old(self).monitor_sessions@, m).len();
                            assert forall|k: int| 0 <= k < old(self).event_subscribers@.len() implies delivery_notice(
                                #[trigger] self.outbox@[old(self).outbox@.len() + w + k],
                                old(self).event_subscribers@[k], old(self).core_name@, old(self).nodes.nodes()[old(self).event_subscribers@[k]].name@,
                                sent.logical) by {
                                assert(self.outbox@[old(self).outbox@.len() + w + k] == before_log.outbox@[old(self).outbox@.len() + w + k]);
                            }
                        }
                    }
                },
            }
        }
        r
    }

    /// Starts the reset that the node `id` asked for: its aliases are dropped with their
    /// messages, sessions and timers, the nodes it launched are asked to shut down, and
    /// the reset finishes at once if there are none.
    #[verifier::spinoff_prover]
    fn initiate_reset(&mut self, id: NodeId)
        requires
            old(self).inv(),
            old(self).nodes.nodes().contains_key(id),
        ensures
            final(self).monitor_sessions@.len() == 0,
            final(self).network@ == old(self).network@.filter(|m: MessageInTransit| !touches_aliases(
                old(self).nodes.names(), id, old(self).nodes.nodes()[id].name@, m)),
            ({
                let f = old(self).timer_manager@.filter(|t: Timer| !alias_service_timer(
                    old(self).nodes.names(), id, old(self).nodes.nodes()[id].name@, t));
                let at = count_not_after(f, old(self).now.saturating_add(SHUTDOWN_TIMEOUT_MILLIS)) as int;
                &&& final(self).timer_manager@ == f.insert(at, final(self).timer_manager@[at])
                &&& final(self).timer_manager@[at].kind is ShutdownTimeout
            }),
            final(self).inv(),
            final(self).core_name == old(self).core_name,
            final(self).commands == old(self).commands,
            final(self).state == old(self).state,
            final(self).interactive == old(self).interactive,
            final(self).next_node_id == old(self).next_node_id,
            final(self).now == old(self).now,
            final(self).log == old(self).log,
            final(self).timestamp_source == old(self).timestamp_source,
            final(self).event_subscribers == old(self).event_subscribers,
            final(self).network.order() == old(self).network.order(),
            final(self).nodes.names() == kept_names(old(self).nodes.names(), id, Some(old(self).nodes.nodes()[id].name@)),
            final(self).nodes.nodes().dom() == old(self).nodes.nodes().dom(),
            final(self).nodes.nodes()[id].reset_requested == exists|x: NodeId| #[trigger] old(self).nodes.nodes().contains_key(x)
                && old(self).nodes.nodes()[x].launched_by == Some(id),
            forall|i: int| 0 <= i < old(self).outbox@.len() ==> #[trigger] final(self).outbox@[i] == old(self).outbox@[i],
            final(self).outbox@.len() >= old(self).outbox@.len(),
            forall|x: NodeId| #[trigger] old(self).nodes.nodes().contains_key(x) && old(self).nodes.nodes()[x].launched_by == Some(id)
                ==> exists|k: int| old(self).outbox@.len() <= k < final(self).outbox@.len()
                    && #[trigger] final(self).outbox@[k] == (Outgoing { to: x, command: ProcessCommand::Shutdown }),
            !final(self).nodes.nodes()[id].reset_requested ==> delivers(
                final(self).outbox@.last(), id, old(self).core_name@, old(self).nodes.nodes()[id].name@, Payload::ResetFinished),
    {
        proof {
            self.nodes.lemma_wf_facts();
        }
        let ghost names = self.nodes.names();
        let ghost own = self.nodes.nodes()[id].name@;
        let all = self.nodes.aliases_of(id);
        let own_name = self.nodes.get(id).unwrap().name.clone();
        let extra = without_str(&all, own_name.as_str());
        proof {
            assert forall|x: Seq<char>| has_str(extra@, x) <==> refers_to(names, x, id) && x != own by {
                if refers_to(names, x, id) {
                    let k = choose|k: int| 0 <= k < all.len() && (#[trigger] all@[k])@ == x;
                    assert(has_str(all@, x));
                }
                if has_str(all@, x) {
                    let k = choose|k: int| 0 <= k < all.len() && (#[trigger] all@[k])@ == x;
                }
            }
        }
        let ghost q = self.network@;
        let ghost sq = self.monitor_sessions@;
        let ghost tq = self.timer_manager@;
        self.cleanup_aliases(&extra);
        self.monitor_sessions = Vec::new();
        proof {
            assert((|m: MessageInTransit| !touches(extra@, m)) =~= (|m: MessageInTransit| !touches_aliases(names, id, own, m))) by {
                assert forall|m: MessageInTransit| touches(extra@, m) <==> touches_aliases(names, id, own, m) by {
                    if touches(extra@, m) {
                        let k = choose|k: int| 0 <= k < extra@.len()
                            && ((#[trigger] extra@[k])@ == m.message.src@ || extra@[k]@ == m.message.dest@);
                        assert(has_str(extra@, extra@[k]@));
                    }
                    if is_alias_of(names, id, own, m.message.src@) {
                        assert(has_str(extra@, m.message.src@));
                    }
                    if is_alias_of(names, id, own, m.message.dest@) {
                        assert(has_str(extra@, m.message.dest@));
                    }
                }
            }
            assert((|t: Timer| !service_named(extra@, t)) =~= (|t: Timer| !alias_service_timer(names, id, own, t))) by {
                assert forall|t: Timer| service_named(extra@, t) <==> alias_service_timer(names, id, own, t) by {
                    match t.kind {
                        TimerKind::TimerService { name, .. } => {
                            assert(has_str(extra@, name@) <==> is_alias_of(names, id, own, name@));
                        },
                        _ => {},
                    }
                }
            }
        }
        self.nodes.remove_aliases_of(id);
        proof {
            let nn = self.nodes.names();
            let nq = self.network@;
            crate::seq_facts::lemma_filter_subset(q, |m: MessageInTransit| !touches(extra@, m));
            assert forall|i: int| 0 <= i < nq.len() implies match (#[trigger] nq[i]).source {
                Some(sid) => nn.contains_key(nq[i].message.src@) && nn[nq[i].message.src@] == sid,
                None => true,
            } by {
                assert(q.contains(nq[i]));
                let src = nq[i].message.src@;
                if !nq[i].source.is_none() {
                    assert(!has_str(extra@, src)) by {
                        if has_str(extra@, src) {
                            let k = choose|k: int| 0 <= k < extra@.len() && (#[trigger] extra@[k])@ == src;
                            assert(touches(extra@, nq[i]));
                        }
                    }
                }
            }
            assert forall|x: NodeId| #[trigger] self.nodes.nodes().contains_key(x) <==> old(self).nodes.nodes().contains_key(x) by {}
        }
        let ghost before_shutdown = *self;
        let count = self.begin_shutdown_timeout(ShutdownSelection::LaunchedBy(id));
        let ghost after_shutdown = *self;
        self.nodes.set_reset_requested(id, true);
        proof {
            assert forall|x: NodeId| #[trigger] self.nodes.nodes().contains_key(x) <==> old(self).nodes.nodes().contains_key(x) by {}
            assert(count == 0 <==> !exists|x: NodeId| #[trigger] old(self).nodes.nodes().contains_key(x)
                && old(self).nodes.nodes()[x].launched_by == Some(id)) by {
                if count > 0 {
                    let j: int = 0;
                    let o = after_shutdown.outbox@[before_shutdown.outbox@.len() + j];
                    assert(before_shutdown.nodes.nodes().contains_key(o.to));
                    assert(old(self).nodes.nodes().contains_key(o.to));
                }
                if exists|x: NodeId| #[trigger] old(self).nodes.nodes().contains_key(x) && old(self).nodes.nodes()[x].launched_by == Some(id) {
                    let x = choose|x: NodeId| #[trigger] old(self).nodes.nodes().contains_key(x) && old(self).nodes.nodes()[x].launched_by == Some(id);
                    assert(before_shutdown.nodes.nodes().contains_key(x));
                }
            }
            assert forall|x: NodeId| #[trigger] old(self).nodes.nodes().contains_key(x) && old(self).nodes.nodes()[x].launched_by == Some(id)
                implies exists|k: int| old(self).outbox@.len() <= k < after_shutdown.outbox@.len()
                    && #[trigger] after_shutdown.outbox@[k] == (Outgoing { to: x, command: ProcessCommand::Shutdown }) by {
                assert(before_shutdown.nodes.nodes().contains_key(x));
                let j = choose|j: int| 0 <= j < count && (#[trigger] after_shutdown.outbox@[before_shutdown.outbox@.len() + j]).to == x;
                let k = before_shutdown.outbox@.len() + j;
                assert(after_shutdown.outbox@[k].command is Shutdown);
            }
        }
        proof {
            assert forall|x: NodeId| #[trigger] old(self).nodes.nodes().contains_key(x) && old(self).nodes.nodes()[x].launched_by == Some(id)
                implies exists|k: int| old(self).outbox@.len() <= k < self.outbox@.len()
                    && #[trigger] self.outbox@[k] == (Outgoing { to: x, command: ProcessCommand::Shutdown }) by {
                let k = choose|k: int| old(self).outbox@.len() <= k < after_shutdown.outbox@.len()
                    && #[trigger] after_shutdown.outbox@[k] == (Outgoing { to: x, command: ProcessCommand::Shutdown });
                assert(self.outbox@[k] == after_shutdown.outbox@[k]);
            }
        }
        if count == 0 {
            self.finish_reset(id);
            proof {
                assert forall|i: int| 0 <= i < old(self).outbox@.len() implies #[trigger] self.outbox@[i] == old(self).outbox@[i] by {
                    assert(self.outbox@.drop_last()[i] == self.outbox@[i]);
                }
            }
        }
    }
    /// Logs `message` of the node `id`, under `source_name` if given and the node's own
    /// name otherwise, and publishes it to the subscribers.
    fn log(&mut self, ts: Timestamp, id: NodeId, source_name: Option<String>, message: LogMessage)
        requires
            old(self).inv(),
            old(self).nodes.nodes().contains_key(id),
        ensures
            final(self).inv(),
            *final(self) == (Core { outbox: final(self).outbox, log: final(self).log, ..*old(self) }),
            forall|i: int| 0 <= i < old(self).outbox@.len() ==> #[trigger] final(self).outbox@[i] == old(self).outbox@[i],
            final(self).outbox@.len() >= old(self).outbox@.len(),
            final(self).log@.len() == old(self).log@.len() + 1,
            final(self).log@.drop_last() == old(self).log@,
            final(self).log@.last().level == LogLevel::Info,
            final(self).log@.last().text@ == log_text(
                match source_name {
                    Some(n) => n@,
                    None => old(self).nodes.nodes()[id].name@,
                },
                old(self).nodes.nodes()[id].name@,
                message,
            ),
    {
        let node = self.nodes.get(id).unwrap();
        let node_name = node.name.clone();
        let text = match &source_name {
            Some(n) => log_line_text(n.as_str(), node_name.as_str(), &message),
            None => log_line_text(node_name.as_str(), node_name.as_str(), &message),
        };
        self.log.push(LogLine { level: LogLevel::Info, text });
        self.publish_event(Event { timestamp: ts, kind: EventKind::Log { name: node_name, message } });
        proof {
            assert(self.log@.drop_last() =~= old(self).log@);
        }
    }

    /// Logs an error of the core and publishes it to the subscribers, as a log line of
    /// the core marked `ERR` in red. `message_text` is the rendered message of an error
    /// that carries one.
    pub fn log_core_error(&mut self, error: &CoreError, message_text: &str)
        requires
            old(self).inv(),
        ensures
            final(self).inv(),
            final(self).spec_nodes() == old(self).spec_nodes(),
            final(self).spec_names() == old(self).spec_names(),
            final(self).spec_network() == old(self).spec_network(),
            final(self).spec_timers() == old(self).spec_timers(),
            final(self).spec_state() == old(self).spec_state(),
            final(self).spec_sessions() == old(self).spec_sessions(),
            final(self).spec_subscribers() == old(self).spec_subscribers(),
            final(self).spec_log() == old(self).spec_log().push(final(self).spec_log().last()),
            final(self).spec_log().last().level == LogLevel::Error,
            final(self).spec_log().last().text@ == core_error_text(*error, message_text@),
            forall|i: int| 0 <= i < old(self).spec_outbox().len() ==> #[trigger] final(self).spec_outbox()[i] == old(self).spec_outbox()[i],
            final(self).spec_outbox().len() >= old(self).spec_outbox().len(),
    {
        self.record_error(error, message_text);
    }

    /// Logs an error of the core and publishes it to the subscribers; only the log, the
    /// outbox and the clock change.
    fn record_error(&mut self, error: &CoreError, message_text: &str)
        requires
            old(self).inv(),
        ensures
            final(self).inv(),
            *final(self) == (Core {
                log: final(self).log,
                outbox: final(self).outbox,
                timestamp_source: final(self).timestamp_source,
                ..*old(self)
            }),
            final(self).log@ == old(self).log@.push(final(self).log@.last()),
            final(self).log@.last().level == LogLevel::Error,
            final(self).log@.last().text@ == core_error_text(*error, message_text@),
            forall|i: int| 0 <= i < old(self).outbox@.len() ==> #[trigger] final(self).outbox@[i] == old(self).outbox@[i],
            final(self).outbox@.len() >= old(self).outbox@.len(),
            forall|k: int| old(self).outbox@.len() <= k < final(self).outbox@.len() ==> is_notice(#[trigger] final(self).outbox@[k]),
            final(self).timestamp_source.next_logical() >= old(self).timestamp_source.next_logical(),
    {
        let mut text = String::from_str("simulation core error:\n");
        let d = error.describe(message_text);
        text.append(d.as_str());
        proof {
            reveal_strlit("simulation core error:\n");
        }
        let logged = text.clone();
        self.log.push(LogLine { level: LogLevel::Error, text: logged });
        proof {
            assert(self.log@ =~= old(self).log@.push(self.log@.last()));
        }
        match self.tick() {
            Some(ts) => {
                let marker = LogMarker { label: String::from_str("ERR"), color: Some(LogMarkerColor::Red) };
                let name = self.core_name.clone();
                self.publish_event(Event {
                    timestamp: ts,
                    kind: EventKind::Log { name, message: LogMessage { text, marker: Some(marker) } },
                });
            },
            None => {},
        }
    }

    /// Subscribes the node `id` to the events of the core, and tells it of every other
    /// node, so that it misses none that was launched before.
    #[verifier::spinoff_prover]
    fn subscribe_events(&mut self, id: NodeId) -> (r: Result<(), CoreError>)
        requires
            old(self).inv(),
            old(self).nodes.nodes().contains_key(id),
        ensures
            final(self).inv(),
            *final(self) == (Core {
                event_subscribers: final(self).event_subscribers,
                outbox: final(self).outbox,
                timestamp_source: final(self).timestamp_source,
                ..*old(self)
            }),
            final(self).event_subscribers@ == old(self).event_subscribers@.push(id),
            forall|i: int| 0 <= i < old(self).outbox@.len() ==> #[trigger] final(self).outbox@[i] == old(self).outbox@[i],
            final(self).outbox@.len() >= old(self).outbox@.len(),
            final(self).timestamp_source.next_logical() >= old(self).timestamp_source.next_logical(),
            old(self).timestamp_source.next_logical() + old(self).nodes.nodes().len() <= usize::MAX ==> r is Ok,
            r is Err ==> r matches Err(CoreError::ClockExhausted),
            r is Ok ==> forall|x: NodeId| #[trigger] old(self).nodes.nodes().contains_key(x) && x != id ==> exists|k: int|
                old(self).outbox@.len() <= k < final(self).outbox@.len() && launch_notice(
                    #[trigger] final(self).outbox@[k], id, old(self).core_name@, old(self).nodes.nodes()[id].name@,
                    old(self).nodes.nodes()[x].name@),
    {
        proof {
            self.nodes.lemma_wf_facts();
        }
        self.event_subscribers.push(id);
        let ghost o = self.outbox@;
        let ghost t0 = self.timestamp_source.next_logical();
        let subscriber_name = self.nodes.get(id).unwrap().name.clone();
        let all = self.nodes.node_ids();
        let n = all.len();
        proof {
            assert(all@.to_set() =~= self.nodes.nodes().dom());
            all@.unique_seq_to_set();
        }
        let mut i: usize = 0;
        while i < n
            invariant
                self.inv(),
                *self == (Core {
                    event_subscribers: self.event_subscribers,
                    outbox: self.outbox,
                    timestamp_source: self.timestamp_source,
                    ..*old(self)
                }),
                self.event_subscribers@ == old(self).event_subscribers@.push(id),
                n == all@.len(),
                n == old(self).nodes.nodes().len(),
                0 <= i <= n,
                o == old(self).outbox@,
                old(self).nodes.nodes().contains_key(id),
                subscriber_name@ == old(self).nodes.nodes()[id].name@,
                forall|x: NodeId| #[trigger] self.nodes.nodes().contains_key(x) <==> all@.contains(x),
                forall|j: int| 0 <= j < o.len() ==> #[trigger] self.outbox@[j] == o[j],
                self.outbox@.len() >= o.len(),
                t0 == old(self).timestamp_source.next_logical(),
                t0 <= self.timestamp_source.next_logical() <= t0 + i,
                forall|k: int| 0 <= k < i && #[trigger] all@[k] != id ==> exists|j: int| o.len() <= j < self.outbox@.len()
                    && launch_notice(#[trigger] self.outbox@[j], id, old(self).core_name@, subscriber_name@,
                        old(self).nodes.nodes()[all@[k]].name@),
            decreases n - i,
        {
            let x = all[i];
            assert(all@.contains(x));
            if x != id {
                let ts = match self.tick() {
                    Some(ts) => ts,
                    None => return Err(CoreError::ClockExhausted),
                };
                let node = self.nodes.get(x).unwrap();
                let name = node.name.clone();
                let commandline = node.commandline();
                let event = Event { timestamp: ts, kind: EventKind::NodeLaunched { name, commandline } };
                let m = Message::new(self.core_name.as_str(), subscriber_name.as_str(), Payload::PublishEvent(event));
                let ghost prev = self.outbox@;
                self.outbox.push(Outgoing { to: id, command: ProcessCommand::Deliver(m) });
                proof {
                    let last = self.outbox@.len() - 1;
                    assert(launch_notice(self.outbox@[last], id, old(self).core_name@, subscriber_name@, old(self).nodes.nodes()[x].name@));
                    assert forall|k: int| 0 <= k < i + 1 && #[trigger] all@[k] != id implies exists|j: int| o.len() <= j < self.outbox@.len()
                        && launch_notice(#[trigger] self.outbox@[j], id, old(self).core_name@, subscriber_name@,
                            old(self).nodes.nodes()[all@[k]].name@) by {
                        if k < i {
                            let j = choose|j: int| o.len() <= j < prev.len()
                                && launch_notice(#[trigger] prev[j], id, old(self).core_name@, subscriber_name@,
                                    old(self).nodes.nodes()[all@[k]].name@);
                            assert(self.outbox@[j] == prev[j]);
                        } else {
                            assert(launch_notice(self.outbox@[last], id, old(self).core_name@, subscriber_name@,
                                old(self).nodes.nodes()[all@[k]].name@));
                        }
                    }
                }
            }
            i = i + 1;
        }
        proof {
            assert forall|x: NodeId| #[trigger] old(self).nodes.nodes().contains_key(x) && x != id implies exists|k: int|
                old(self).outbox@.len() <= k < self.outbox@.len() && launch_notice(
                    #[trigger] self.outbox@[k], id, old(self).core_name@, old(self).nodes.nodes()[id].name@,
                    old(self).nodes.nodes()[x].name@) by {
                let k = choose|k: int| 0 <= k < n && all@[k] == x;
                assert(all@[k] != id);
            }
        }
        Ok(())
    }
    /// Takes the message sent at logical time `t` out of the network, if there is one;
    /// the rest of the core is unchanged.
    fn take_from_network(&mut self, t: usize) -> (r: Option<MessageInTransit>)
        requires
            old(self).inv(),
        ensures
            final(self).inv(),
            *final(self) == (Core { network: final(self).network, ..*old(self) }),
            final(self).network.order() == old(self).network.order(),
            (r, final(self).network@) == spec_remove_one(old(self).network@, t as nat),
            r is None <==> !holds_time(old(self).network@, t as nat),
            r is None ==> *final(self) == *old(self),
            r matches Some(m) ==> m.source matches Some(sid) ==> refers_to(old(self).nodes.names(), m.message.src@, sid),
            r matches Some(m) ==> ts_of(m) < old(self).timestamp_source.next_logical(),
    {
        let ghost q = self.network@;
        let r = self.network.remove_one(t);
        proof {
            let i = count_before(q, t as nat) as int;
            let nq = self.network@;
            if r is Some {
                assert forall|j: int| 0 <= j < nq.len() implies #[trigger] nq[j] == q[if j < i { j } else { j + 1 }] by {}
                assert forall|j: int| 0 <= j < nq.len() implies match (#[trigger] nq[j]).source {
                    Some(sid) => self.nodes.names().contains_key(nq[j].message.src@) && self.nodes.names()[nq[j].message.src@] == sid,
                    None => true,
                } by {
                    assert(nq[j] == q[if j < i { j } else { j + 1 }]);
                }
                assert forall|j: int| 0 <= j < nq.len() implies ts_of(#[trigger] nq[j]) < self.timestamp_source.next_logical() by {
                    assert(nq[j] == q[if j < i { j } else { j + 1 }]);
                }
                assert(r == Some(q[i]));
            }
        }
        r
    }

    /// Drops the message sent at logical time `t` from the network, if it is there, and
    /// tells the subscribers.
    fn drop_by_timestamp(&mut self, t: usize) -> (r: Result<(), CoreError>)
        requires
            old(self).inv(),
        ensures
            final(self).inv(),
            *final(self) == (Core {
                network: final(self).network,
                outbox: final(self).outbox,
                timestamp_source: final(self).timestamp_source,
                ..*old(self)
            }),
            final(self).network.order() == old(self).network.order(),
            final(self).network@ == spec_remove_one(old(self).network@, t as nat).1,
            forall|i: int| 0 <= i < old(self).outbox@.len() ==> #[trigger] final(self).outbox@[i] == old(self).outbox@[i],
            final(self).outbox@.len() >= old(self).outbox@.len(),
            final(self).timestamp_source.next_logical() >= old(self).timestamp_source.next_logical(),
            r is Ok <==> old(self).timestamp_source.next_logical() < usize::MAX,
            r is Err ==> r matches Err(CoreError::ClockExhausted),
    {
        self.take_from_network(t);
        let ts = match self.tick() {
            Some(ts) => ts,
            None => return Err(CoreError::ClockExhausted),
        };
        self.publish_event(Event { timestamp: ts, kind: EventKind::DropMessage { sent_timestamp: t } });
        Ok(())
    }

    /// Delivers the message sent at logical time `t` out of order, if it is in the
    /// network; nothing happens otherwise.
    fn deliver_by_timestamp(&mut self, t: usize) -> (r: Result<(), CoreError>)
        requires
            old(self).inv(),
        ensures
            spec_remove_one(old(self).network@, t as nat).0 matches Some(m) ==> (old(self).nodes.names().contains_key(m.message.dest@)
                && old(self).timestamp_source.next_logical() < usize::MAX ==> r is Ok),
            spec_remove_one(old(self).network@, t as nat).0 matches Some(m) ==> final(self).network@ == after_delivery(
                old(self).nodes.nodes(), old(self).nodes.names(), spec_remove_one(old(self).network@, t as nat).1, m.source),
            final(self).inv(),
            final(self).core_name == old(self).core_name,
            final(self).commands == old(self).commands,
            final(self).state == old(self).state,
            final(self).interactive == old(self).interactive,
            final(self).next_node_id == old(self).next_node_id,
            final(self).now == old(self).now,
            forall|i: int| 0 <= i < old(self).log@.len() ==> #[trigger] final(self).log@[i] == old(self).log@[i],
            final(self).log@.len() >= old(self).log@.len(),
            final(self).network.order() == old(self).network.order(),
            final(self).timestamp_source.next_logical() >= old(self).timestamp_source.next_logical(),
            forall|i: int| 0 <= i < old(self).outbox@.len() ==> #[trigger] final(self).outbox@[i] == old(self).outbox@[i],
            final(self).outbox@.len() >= old(self).outbox@.len(),
            !holds_time(old(self).network@, t as nat) ==> *final(self) == *old(self) && r is Ok,
            spec_remove_one(old(self).network@, t as nat).0 matches Some(m) ==> {
                &&& !old(self).nodes.names().contains_key(m.message.dest@) ==> (r matches Err(
                    CoreError::DispatchError { name, message: e, kind: DispatchErrorKind::DestinationUnknown },
                ) && name@ == m.message.src@ && e == m.message)
                &&& old(self).nodes.names().contains_key(m.message.dest@) && old(self).timestamp_source.next_logical() < usize::MAX
                    ==> exists|k: int| old(self).outbox@.len() <= k < final(self).outbox@.len() && #[trigger] final(self).outbox@[k] == (
                    Outgoing { to: old(self).nodes.names()[m.message.dest@], command: ProcessCommand::Deliver(m.message) })
            },
    {
        match self.take_from_network(t) {
            Some(m) => self.deliver(m.sent_timestamp, m.source, m.message),
            None => Ok(()),
        }
    }

    /// Carries out a control message.
    fn handle_control_message(&mut self, control: Control) -> (r: Result<(), CoreError>)
        requires
            old(self).inv(),
        ensures
            control matches Control::Deliver { sent_timestamp } ==> (spec_remove_one(old(self).network@, sent_timestamp as nat).0 matches Some(m)
                ==> (old(self).nodes.names().contains_key(m.message.dest@) && old(self).timestamp_source.next_logical() < usize::MAX ==> r is Ok)),
            control matches Control::Deliver { sent_timestamp } ==> (spec_remove_one(old(self).network@, sent_timestamp as nat).0 matches Some(m)
                ==> final(self).network@ == after_delivery(old(self).nodes.nodes(), old(self).nodes.names(),
                    spec_remove_one(old(self).network@, sent_timestamp as nat).1, m.source)),
            control matches Control::Deliver { sent_timestamp } ==> (!holds_time(old(self).network@, sent_timestamp as nat)
                ==> final(self).network == old(self).network),
            final(self).inv(),
            final(self).core_name == old(self).core_name,
            final(self).commands == old(self).commands,
            final(self).interactive == old(self).interactive,
            final(self).next_node_id == old(self).next_node_id,
            final(self).now == old(self).now,
            forall|i: int| 0 <= i < old(self).log@.len() ==> #[trigger] final(self).log@[i] == old(self).log@[i],
            final(self).log@.len() >= old(self).log@.len(),
            final(self).network.order() == old(self).network.order(),
            final(self).timestamp_source.next_logical() >= old(self).timestamp_source.next_logical(),
            forall|i: int| 0 <= i < old(self).outbox@.len() ==> #[trigger] final(self).outbox@[i] == old(self).outbox@[i],
            final(self).outbox@.len() >= old(self).outbox@.len(),
            control is Break ==> final(self).state == CoreState::Paused && *final(self) == (Core { state: CoreState::Paused, ..*old(self) }),
            control is Step ==> final(self).state == CoreState::Stepping && *final(self) == (Core { state: CoreState::Stepping, ..*old(self) }),
            control is Resume ==> final(self).state == CoreState::Running && *final(self) == (Core { state: CoreState::Running, ..*old(self) }),
            !(control is Break || control is Step || control is Resume) ==> final(self).state == old(self).state,
            control matches Control::Drop { sent_timestamp } ==> final(self).network@ == spec_remove_one(old(self).network@, sent_timestamp as nat).1,
            control is Shutdown ==> r is Ok && final(self).network@ == old(self).network@ && forall|x: NodeId| #[trigger] old(self).nodes.nodes().contains_key(x)
                ==> exists|k: int| old(self).outbox@.len() <= k < final(self).outbox@.len()
                    && #[trigger] final(self).outbox@[k] == (Outgoing { to: x, command: ProcessCommand::Shutdown }),
    {
        match control {
            Control::Break => {
                self.state = CoreState::Paused;
                Ok(())
            },
            Control::Step => {
                self.state = CoreState::Stepping;
                Ok(())
            },
            Control::Resume => {
                self.state = CoreState::Running;
                Ok(())
            },
            Control::Deliver { sent_timestamp } => self.deliver_by_timestamp(sent_timestamp),
            Control::Drop { sent_timestamp } => self.drop_by_timestamp(sent_timestamp),
            Control::Shutdown => {
                let ghost before = *self;
                let count = self.begin_shutdown_timeout(ShutdownSelection::All);
                proof {
                    assert forall|x: NodeId| #[trigger] old(self).nodes.nodes().contains_key(x) implies exists|k: int|
                        old(self).outbox@.len() <= k < self.outbox@.len()
                        && #[trigger] self.outbox@[k] == (Outgoing { to: x, command: ProcessCommand::Shutdown }) by {
                        assert(selects(ShutdownSelection::All, old(self).nodes.nodes()[x]));
                        let j = choose|j: int| 0 <= j < count && (#[trigger] self.outbox@[before.outbox@.len() + j]).to == x;
                        let k = before.outbox@.len() + j;
                        assert(self.outbox@[k].command is Shutdown);
                    }
                }
                Ok(())
            },
        }
    }
    /// The index of the command named `name`, if any.
    fn command_index(&self, name: &str) -> (r: Option<usize>)
        ensures
            match r {
                Some(i) => i < self.commands@.len() && self.commands@[i as int].name@ == name@,
                None => !has_command(self.commands@, name@),
            },
    {
        let n = self.commands.len();
        let mut i: usize = 0;
        while i < n
            invariant
                n == self.commands@.len(),
                0 <= i <= n,
                forall|k: int| 0 <= k < i ==> (#[trigger] self.commands@[k]).name@ != name@,
            decreases n - i,
        {
            if str_eq(self.commands[i].name.as_str(), name) {
                return Some(i);
            }
            i = i + 1;
        }
        None
    }

    /// The names of the registered commands, in their order.
    fn command_name_list(&self) -> (v: Vec<String>)
        ensures
            v.deep_view() == command_names(self.commands@),
    {
        let n = self.commands.len();
        let mut v: Vec<String> = Vec::new();
        let mut i: usize = 0;
        while i < n
            invariant
                n == self.commands@.len(),
                0 <= i <= n,
                v@.len() == i,
                forall|k: int| 0 <= k < i ==> (#[trigger] v@[k])@ == self.commands@[k].name@,
            decreases n - i,
        {
            v.push(self.commands[i].name.clone());
            i = i + 1;
        }
        proof {
            let d = v.deep_view();
            let c = command_names(self.commands@);
            assert forall|k: int| 0 <= k < n implies #[trigger] d[k] == c[k] by {
                assert(d[k] == v@[k]@);
            }
            assert(d =~= c);
        }
        v
    }

    /// Starts a process for the command named `command_name` with the spawner, for the
    /// node with the next id; returns the process and the capabilities of the command.
    fn run_process<S: Spawner<P>>(&mut self, command_name: &str, spawner: &mut S) -> (r: Result<(P, Capabilities, String), CoreError>)
        requires
            unique_commands(old(self).commands@),
        ensures
            *final(self) == (Core { spawn_requests: final(self).spawn_requests, ..*old(self) }),
            final(self).spawn_requests@ == (if has_command(old(self).commands@, command_name@) && old(self).next_node_id.0 < usize::MAX {
                old(self).spawn_requests@.push((old(self).next_node_id, command_named(old(self).commands@, command_name@).command))
            } else {
                old(self).spawn_requests@
            }),
            !has_command(old(self).commands@, command_name@) <==> r matches Err(CoreError::UnknownCommand { .. }),
            r matches Err(CoreError::UnknownCommand { command_name: n, available_commands: a }) ==> n@ == command_name@
                && a.deep_view() == command_names(old(self).commands@),
            r matches Err(e) ==> e is UnknownCommand || e is UnknownRunner || e is ClockExhausted,
            r matches Err(CoreError::ClockExhausted) <==> has_command(old(self).commands@, command_name@) && old(self).next_node_id.0 == usize::MAX,
            r is Ok ==> old(self).next_node_id.0 < usize::MAX,
            r matches Err(CoreError::UnknownRunner { runner_name, .. }) ==> exists|i: int| 0 <= i < old(self).commands@.len()
                && (#[trigger] old(self).commands@[i]).name@ == command_name@ && runner_name@ == old(self).commands@[i].command.runner@,
            r matches Ok((_, caps, line)) ==> exists|i: int| 0 <= i < old(self).commands@.len()
                && (#[trigger] old(self).commands@[i]).name@ == command_name@ && caps == old(self).commands@[i].capabilities
                && line@ == join_spaces(old(self).commands@[i].command.args.deep_view()),
    {
        let i = match self.command_index(command_name) {
            Some(i) => i,
            None => {
                return Err(CoreError::UnknownCommand {
                    command_name: String::from_str(command_name),
                    available_commands: self.command_name_list(),
                });
            },
        };
        if self.next_node_id.0 == usize::MAX {
            return Err(CoreError::ClockExhausted);
        }
        proof {
            let c = choose|c: int| 0 <= c < self.commands@.len() && (#[trigger] self.commands@[c]).name@ == command_name@;
            if c != i {
                if c < i {
                    assert(self.commands@[c].name@ != self.commands@[i as int].name@);
                } else {
                    assert(self.commands@[i as int].name@ != self.commands@[c].name@);
                }
            }
        }
        self.spawn_requests = Ghost(self.spawn_requests@.push((self.next_node_id, self.commands@[i as int].command)));
        let entry = &self.commands[i];
        match spawner.spawn(self.next_node_id, &entry.command) {
            Ok(process) => Ok((process, entry.capabilities, entry.command.commandline())),
            Err(_) => Err(CoreError::UnknownRunner {
                runner_name: entry.command.runner.clone(),
                available_runners: spawner.available_runners(),
            }),
        }
    }
    /// Starts a process for the command named `command_name` and adds its node under
    /// `name`. A registration timer is set for a node that must register.
    #[verifier::spinoff_prover]
    #[verifier::rlimit(40)]
    fn launch<S: Spawner<P>>(
        &mut self,
        command_name: &str,
        launched_by: Option<NodeId>,
        requires_registration: bool,
        exited_message_requested: bool,
        weak: bool,
        name: String,
        spawner: &mut S,
    ) -> (r: Result<NodeId, CoreError>)
        requires
            old(self).inv(),
        ensures
            r matches Err(CoreError::ClockExhausted) ==> old(self).next_node_id.0 == usize::MAX,
            r is Ok ==> final(self).next_node_id.0 == old(self).next_node_id.0 + 1,
            r is Err ==> final(self).next_node_id == old(self).next_node_id,
            final(self).inv(),
            *final(self) == (Core {
                nodes: final(self).nodes,
                next_node_id: final(self).next_node_id,
                timer_manager: final(self).timer_manager,
                spawn_requests: final(self).spawn_requests,
                ..*old(self)
            }),
            final(self).spawn_requests@ == (if has_command(old(self).commands@, command_name@) && old(self).next_node_id.0 < usize::MAX {
                old(self).spawn_requests@.push((old(self).next_node_id, command_named(old(self).commands@, command_name@).command))
            } else {
                old(self).spawn_requests@
            }),
            r matches Err(e) ==> launch_error(e, old(self).commands@, old(self).nodes.names(), command_name@, name@),
            r matches Ok(id) ==> id == old(self).next_node_id && has_command(old(self).commands@, command_name@),
            !has_command(old(self).commands@, command_name@) ==> (r matches Err(CoreError::UnknownCommand { command_name: n, available_commands: a })
                && n@ == command_name@ && a.deep_view() == command_names(old(self).commands@)),
            has_command(old(self).commands@, command_name@) && old(self).nodes.names().contains_key(name@)
                && old(self).next_node_id.0 < usize::MAX ==> (r is Err && !(r matches Err(CoreError::UnknownCommand { .. }))),
            r matches Err(CoreError::DuplicateNodeName { name: n }) ==> n@ == name@,
            r matches Err(CoreError::UnknownRunner { runner_name, .. }) ==> exists|i: int| 0 <= i < old(self).commands@.len()
                && (#[trigger] old(self).commands@[i]).name@ == command_name@ && runner_name@ == old(self).commands@[i].command.runner@,
            r matches Err(e) ==> e is UnknownCommand || e is UnknownRunner || e is DuplicateNodeName || e is ClockExhausted,
            r is Err ==> final(self).nodes.nodes() == old(self).nodes.nodes() && final(self).nodes.names() == old(self).nodes.names()
                && final(self).timer_manager == old(self).timer_manager,
            r matches Ok(id) ==> {
                &&& !old(self).nodes.nodes().contains_key(id)
                &&& !old(self).nodes.names().contains_key(name@)
                &&& final(self).nodes.names() == old(self).nodes.names().insert(name@, id)
                &&& final(self).nodes.nodes() == old(self).nodes.nodes().insert(id, final(self).nodes.nodes()[id])
                &&& final(self).nodes.nodes()[id].id == id
                &&& final(self).nodes.nodes()[id].name@ == name@
                &&& final(self).nodes.nodes()[id].launched_by == launched_by
                &&& final(self).nodes.nodes()[id].exited_message_requested == exited_message_requested
                &&& final(self).nodes.nodes()[id].requires_registration == requires_registration
                &&& final(self).nodes.nodes()[id].weak == weak
                &&& !final(self).nodes.nodes()[id].reset_requested
                &&& final(self).nodes.nodes()[id].exit_status == ExitStatus::Running
                &&& exists|i: int| 0 <= i < old(self).commands@.len() && (#[trigger] old(self).commands@[i]).name@ == command_name@
                    && final(self).nodes.nodes()[id].capabilities == old(self).commands@[i].capabilities
                    && final(self).nodes.nodes()[id].commandline@ == join_spaces(old(self).commands@[i].command.args.deep_view())
                &&& requires_registration ==> ({
                    let d = old(self).now.saturating_add(REGISTRATION_TIMEOUT_MILLIS);
                    final(self).timer_manager@ == old(self).timer_manager@.insert(
                        count_not_after(old(self).timer_manager@, d) as int,
                        Timer { deadline: d, kind: TimerKind::ExpectRegistry { node_id: id } },
                    )
                })
                &&& !requires_registration ==> final(self).timer_manager == old(self).timer_manager
            },
    {
        proof {
            self.nodes.lemma_wf_facts();
        }
        let (process, capabilities, commandline) = self.run_process(command_name, spawner)?;
        let id = NodeId::next(&mut self.next_node_id);
        let node = Node::new(
            id,
            name,
            launched_by,
            capabilities,
            exited_message_requested,
            requires_registration,
            weak,
            commandline,
            process,
        );
        let ghost node_v = node;
        let dup_name = node.name.clone();
        match self.nodes.add(node) {
            Ok(()) => {},
            Err(_) => {
                self.next_node_id = id;
                return Err(CoreError::DuplicateNodeName { name: dup_name });
            },
        }
        proof {
            let nn = self.nodes.names();
            let on = old(self).nodes.names();
            assert forall|x: Seq<char>| #[trigger] on.contains_key(x) implies nn.contains_key(x) && nn[x] == on[x] by {
                assert(x != name@);
            }
            let q = self.network@;
            assert forall|i: int| 0 <= i < q.len() implies match (#[trigger] q[i]).source {
                Some(sid) => nn.contains_key(q[i].message.src@) && nn[q[i].message.src@] == sid,
                None => true,
            } by {
                if q[i].source is Some {
                    assert(on.contains_key(q[i].message.src@));
                }
            }
            let ss = self.monitor_sessions@;
            assert forall|k: int| 0 <= k < ss.len() implies nn.contains_key((#[trigger] ss[k]).source@) by {
                assert(on.contains_key(ss[k].source@));
            }
            assert(self.nodes.nodes()[id] == node_v);
        }
        if requires_registration {
            let deadline = self.now.saturating_add(REGISTRATION_TIMEOUT_MILLIS);
            self.timer_manager.add(deadline, TimerKind::ExpectRegistry { node_id: id });
            proof {
                let at = count_not_after(old(self).timer_manager@, deadline) as int;
                let t = self.timer_manager@;
                assert forall|i: int| 0 <= i < t.len() implies match (#[trigger] t[i]).kind {
                    TimerKind::ExpectRegistry { node_id } => self.nodes.nodes().contains_key(node_id),
                    _ => true,
                } by {
                    if i < at {
                        assert(t[i] == old(self).timer_manager@[i]);
                    } else if i > at {
                        assert(t[i] == old(self).timer_manager@[i - 1]);
                    }
                }
            }
        }
        Ok(id)
    }
    /// Launches the node `name`, for the node `launched_by`, from the command named
    /// `command_name`, and sends it its `init` message.
    fn launch_server_node<S: Spawner<P>>(
        &mut self,
        name: String,
        command_name: &str,
        launched_by: NodeId,
        exited_message_requested: bool,
        spawner: &mut S,
    ) -> (r: Result<NodeId, CoreError>)
        requires
            old(self).inv(),
        ensures
            final(self).spawn_requests@ == (if has_command(old(self).commands@, command_name@) && old(self).next_node_id.0 < usize::MAX {
                old(self).spawn_requests@.push((old(self).next_node_id, command_named(old(self).commands@, command_name@).command))
            } else {
                old(self).spawn_requests@
            }),
            r matches Err(e) ==> server_launch_error(e, old(self).commands@, old(self).nodes.names(), old(self).core_name@, command_name@, name@),
            final(self).nodes.nodes().dom() != old(self).nodes.nodes().dom() && name@ != old(self).core_name@
                && old(self).timestamp_source.next_logical() + 3 <= usize::MAX ==> r is Ok,
            r is Ok ==> final(self).nodes.nodes().dom() != old(self).nodes.nodes().dom(),
            final(self).timestamp_source.next_logical() <= old(self).timestamp_source.next_logical() + 3,
            final(self).inv(),
            final(self).core_name == old(self).core_name,
            final(self).commands == old(self).commands,
            final(self).state == old(self).state,
            final(self).interactive == old(self).interactive,
            final(self).now == old(self).now,
            final(self).log == old(self).log,
            final(self).network == old(self).network,
            final(self).monitor_sessions == old(self).monitor_sessions,
            final(self).event_subscribers == old(self).event_subscribers,
            final(self).timestamp_source.next_logical() >= old(self).timestamp_source.next_logical(),
            forall|i: int| 0 <= i < old(self).outbox@.len() ==> #[trigger] final(self).outbox@[i] == old(self).outbox@[i],
            final(self).outbox@.len() >= old(self).outbox@.len(),
            final(self).nodes.nodes().dom() == old(self).nodes.nodes().dom() || final(self).nodes.names() == old(self).nodes.names().insert(name@, final(self).nodes.names()[name@]),
            final(self).nodes.nodes().dom() == old(self).nodes.nodes().dom() ==> final(self).nodes.names() == old(self).nodes.names(),
            forall|x: NodeId| #[trigger] old(self).nodes.nodes().contains_key(x) ==> final(self).nodes.nodes().contains_key(x)
                && final(self).nodes.nodes()[x] == old(self).nodes.nodes()[x],
            !has_command(old(self).commands@, command_name@) ==> r matches Err(CoreError::UnknownCommand { .. }),
            !has_command(old(self).commands@, command_name@) ==> final(self).nodes.nodes().dom() == old(self).nodes.nodes().dom(),
            final(self).nodes.nodes().dom() != old(self).nodes.nodes().dom() ==> !old(self).nodes.names().contains_key(name@)
                && final(self).nodes.names().contains_key(name@)
                && final(self).nodes.names() == old(self).nodes.names().insert(name@, final(self).nodes.names()[name@])
                && final(self).nodes.nodes()[final(self).nodes.names()[name@]].launched_by == Some(launched_by),
            old(self).nodes.names().contains_key(name@) ==> r is Err,
            r matches Ok(id) ==> !old(self).nodes.nodes().contains_key(id) && final(self).nodes.nodes().contains_key(id),
            r matches Ok(id) ==> refers_to(final(self).nodes.names(), name@, id) && !old(self).nodes.names().contains_key(name@)
                && final(self).nodes.nodes()[id].launched_by == Some(launched_by) && exists|k: int|
                old(self).outbox@.len() <= k < final(self).outbox@.len()
                && init_notice(#[trigger] final(self).outbox@[k], id, old(self).core_name@, name@),
            old(self).nodes.names().contains_key(name@) ==> final(self).nodes.nodes().dom() == old(self).nodes.nodes().dom(),
    {
        let id = self.launch(command_name, Some(launched_by), false, exited_message_requested, false, name, spawner)?;
        let ghost launched = *self;
        let init_name = self.nodes.get(id).unwrap().name.clone();
        let payload = Payload::Init {
            name: init_name.clone(),
            core_name: self.core_name.clone(),
            core_version: version::current(),
        };
        let m = Message::new(self.core_name.as_str(), init_name.as_str(), payload);
        proof {
            launched.nodes.lemma_wf_facts();
        }
        let ghost before_init = *self;
        match self.dispatch_from_core(m) {
            Ok(()) => {},
            Err(e) => {
                proof {
                    assert(before_init.nodes.names().contains_key(name@));
                }
                return Err(e);
            },
        }
        proof {
            assert(self.outbox@.last().to == id);
            assert(self.outbox@[self.outbox@.len() - 1].to == id);
            assert(init_notice(self.outbox@[self.outbox@.len() - 1], id, old(self).core_name@, name@));
        }
        Ok(id)
    }
    /// Carries out the launch request of the node `launched_by`: launches the node
    /// `name` from the command named `command_name`, tells the subscribers, and answers
    /// the requesting node with a `launch_finished` message that carries the error, if
    /// the launch failed.
    #[verifier::spinoff_prover]
    fn launch_single<S: Spawner<P>>(
        &mut self,
        name: String,
        command_name: &str,
        launched_by: NodeId,
        exited_message_requested: bool,
        spawner: &mut S,
    ) -> (r: Result<(), CoreError>)
        requires
            old(self).inv(),
            old(self).nodes.nodes().contains_key(launched_by),
        ensures
            old(self).nodes.nodes()[launched_by].name@ == old(self).core_name@ ==> r is Err,
            old(self).nodes.nodes()[launched_by].name@ != old(self).core_name@
                && old(self).timestamp_source.next_logical() + 7 <= usize::MAX ==> r is Ok,
            final(self).inv(),
            final(self).core_name == old(self).core_name,
            final(self).commands == old(self).commands,
            final(self).state == old(self).state,
            final(self).interactive == old(self).interactive,
            final(self).now == old(self).now,
            final(self).log == old(self).log,
            final(self).network == old(self).network,
            final(self).monitor_sessions == old(self).monitor_sessions,
            final(self).event_subscribers == old(self).event_subscribers,
            final(self).timestamp_source.next_logical() >= old(self).timestamp_source.next_logical(),
            forall|i: int| 0 <= i < old(self).outbox@.len() ==> #[trigger] final(self).outbox@[i] == old(self).outbox@[i],
            final(self).outbox@.len() >= old(self).outbox@.len(),
            forall|x: NodeId| #[trigger] old(self).nodes.nodes().contains_key(x) ==> final(self).nodes.nodes().contains_key(x)
                && final(self).nodes.nodes()[x] == old(self).nodes.nodes()[x],
            final(self).nodes.nodes().dom() == old(self).nodes.nodes().dom() ==> final(self).nodes.names() == old(self).nodes.names(),
            final(self).nodes.nodes().dom() != old(self).nodes.nodes().dom() ==> !old(self).nodes.names().contains_key(name@)
                && final(self).nodes.names() == old(self).nodes.names().insert(name@, final(self).nodes.names()[name@])
                && final(self).nodes.nodes()[final(self).nodes.names()[name@]].launched_by == Some(launched_by),
            r is Ok ==> final(self).outbox@.len() > old(self).outbox@.len(),
            final(self).spawn_requests@ == (if has_command(old(self).commands@, command_name@) && old(self).next_node_id.0 < usize::MAX {
                old(self).spawn_requests@.push((old(self).next_node_id, command_named(old(self).commands@, command_name@).command))
            } else {
                old(self).spawn_requests@
            }),
            r is Ok ==> launch_finished(
                final(self).outbox@.last(),
                launched_by,
                old(self).core_name@,
                old(self).nodes.nodes()[launched_by].name@,
                answered_error(final(self).outbox@.last()) is Some,
            ),
            r is Ok && answered_error(final(self).outbox@.last()) is None ==> final(self).nodes.nodes().dom() != old(self).nodes.nodes().dom()
                && exists|k: int| old(self).outbox@.len() <= k < final(self).outbox@.len() && init_notice(
                    #[trigger] final(self).outbox@[k], final(self).nodes.names()[name@], old(self).core_name@, name@),
            r is Ok && final(self).nodes.nodes().dom() != old(self).nodes.nodes().dom() && name@ != old(self).core_name@
                && old(self).timestamp_source.next_logical() + 7 <= usize::MAX ==> answered_error(final(self).outbox@.last()) is None,
            r is Ok ==> (answered_error(final(self).outbox@.last()) matches Some(t) ==> exists|e: CoreError| server_launch_error(
                e, old(self).commands@, old(self).nodes.names(), old(self).core_name@, command_name@, name@)
                && t == describe_error(e, ""@)),
            !has_command(old(self).commands@, command_name@) && r is Ok ==> final(self).nodes.nodes().dom() == old(self).nodes.nodes().dom(),
    {
        proof {
            self.nodes.lemma_wf_facts();
        }
        let launched = self.launch_server_node(name, command_name, launched_by, exited_message_requested, spawner);
        let ghost lr = launched;
        let ghost mid = *self;
        proof {
            mid.nodes.lemma_wf_facts();
        }
        let error = match launched {
            Ok(id) => {
                match self.tick() {
                    Some(ts) => {
                        let node = self.nodes.get(id).unwrap();
                        let node_name = node.name.clone();
                        let commandline = node.commandline();
                        self.publish_event(Event {
                            timestamp: ts,
                            kind: EventKind::NodeLaunched { name: node_name, commandline },
                        });
                    },
                    None => {},
                }
                None
            },
            Err(e) => Some(e.describe("")),
        };
        proof {
            if launched is Ok {
                let id = launched->Ok_0;
                assert(!old(self).nodes.nodes().dom().contains(id));
                assert(mid.nodes.nodes().dom().contains(id));
                assert(mid.nodes.nodes().dom() != old(self).nodes.nodes().dom());
            }
        }
        let launcher_name = self.nodes.get(launched_by).unwrap().name.clone();
        let m = Message::new(self.core_name.as_str(), launcher_name.as_str(), Payload::LaunchFinished { error });
        let ghost before_answer = *self;
        let answered = self.dispatch_from_core(m);
        proof {
            reveal_strlit("");
            assert(self.nodes == before_answer.nodes);
            if answered is Ok {
                let o = self.outbox@.last();
                match lr {
                    Ok(id) => {
                        assert(answered_error(o) is None);
                        let k = choose|k: int| old(self).outbox@.len() <= k < mid.outbox@.len()
                            && init_notice(#[trigger] mid.outbox@[k], id, old(self).core_name@, name@);
                        assert(self.outbox@[k] == mid.outbox@[k]);
                        assert(self.nodes.names()[name@] == id);
                    },
                    Err(e) => {
                        assert(answered_error(o) == Some(describe_error(e, ""@)));
                    },
                }
            }
        }
        answered
    }

    /// Carries out the alias request of the node `for_id`: registers `name` as an alias
    /// of it, tells the subscribers, and answers with a `launch_finished` message that
    /// carries the error, if the name is taken.
    fn create_alias(&mut self, for_id: NodeId, name: String) -> (r: Result<(), CoreError>)
        requires
            old(self).inv(),
            old(self).nodes.nodes().contains_key(for_id),
        ensures
            final(self).inv(),
            *final(self) == (Core {
                nodes: final(self).nodes,
                outbox: final(self).outbox,
                timestamp_source: final(self).timestamp_source,
                ..*old(self)
            }),
            final(self).nodes.nodes() == old(self).nodes.nodes(),
            final(self).nodes.names() == (if old(self).nodes.names().contains_key(name@) {
                old(self).nodes.names()
            } else {
                old(self).nodes.names().insert(name@, for_id)
            }),
            final(self).timestamp_source.next_logical() >= old(self).timestamp_source.next_logical(),
            forall|i: int| 0 <= i < old(self).outbox@.len() ==> #[trigger] final(self).outbox@[i] == old(self).outbox@[i],
            final(self).outbox@.len() >= old(self).outbox@.len(),
            r is Ok ==> final(self).outbox@.len() > old(self).outbox@.len() && launch_finished(
                final(self).outbox@.last(),
                for_id,
                old(self).core_name@,
                old(self).nodes.nodes()[for_id].name@,
                old(self).nodes.names().contains_key(name@),
            ),
    {
        proof {
            self.nodes.lemma_wf_facts();
        }
        let alias = name.clone();
        let added = self.nodes.add_alias(for_id, name);
        let error = match added {
            Ok(Some(node)) => {
                let commandline = node.commandline();
                proof {
                    let nn = self.nodes.names();
                    let on = old(self).nodes.names();
                    assert forall|x: Seq<char>| #[trigger] on.contains_key(x) implies nn.contains_key(x) && nn[x] == on[x] by {
                        assert(x != alias@);
                    }
                    let q = self.network@;
                    assert forall|i: int| 0 <= i < q.len() implies match (#[trigger] q[i]).source {
                        Some(sid) => nn.contains_key(q[i].message.src@) && nn[q[i].message.src@] == sid,
                        None => true,
                    } by {
                        if q[i].source is Some {
                            assert(on.contains_key(q[i].message.src@));
                        }
                    }
                    let ss = self.monitor_sessions@;
                    assert forall|k: int| 0 <= k < ss.len() implies nn.contains_key((#[trigger] ss[k]).source@) by {
                        assert(on.contains_key(ss[k].source@));
                    }
                }
                match self.tick() {
                    Some(ts) => {
                        self.publish_event(Event {
                            timestamp: ts,
                            kind: EventKind::NodeLaunched { name: alias, commandline },
                        });
                    },
                    None => {},
                }
                None
            },
            Ok(None) => None,
            Err(_) => Some(CoreError::DuplicateNodeName { name: alias }.describe("")),
        };
        let launcher_name = self.nodes.get(for_id).unwrap().name.clone();
        let m = Message::new(self.core_name.as_str(), launcher_name.as_str(), Payload::LaunchFinished { error });
        self.dispatch_from_core(m)
    }
    /// Handles a message that the node `source_id` sent to the core, at `ts`. A request
    /// that needs a capability the node lacks is refused, as is a message of a type that
    /// the core does not handle.
    #[verifier::spinoff_prover]
    #[verifier::rlimit(60)]
    fn handle_core_message<S: Spawner<P>>(&mut self, source_id: NodeId, ts: Timestamp, message: Message, spawner: &mut S) -> (r: Result<(), CoreError>)
        requires
            old(self).inv(),
            old(self).nodes.nodes().contains_key(source_id),
            refers_to(old(self).nodes.names(), message.src@, source_id),
        ensures
            Self::request_prompt(*old(self), *final(self), source_id, message, r, 7),
            Self::request_handled(*old(self), *final(self), source_id, message, r),
            final(self).inv(),
            final(self).core_name == old(self).core_name,
            final(self).commands == old(self).commands,
            final(self).interactive == old(self).interactive,
            final(self).now == old(self).now,
            final(self).network.order() == old(self).network.order(),
            final(self).timestamp_source.next_logical() >= old(self).timestamp_source.next_logical(),
            forall|i: int| 0 <= i < old(self).outbox@.len() ==> #[trigger] final(self).outbox@[i] == old(self).outbox@[i],
            final(self).outbox@.len() >= old(self).outbox@.len(),
            forall|i: int| 0 <= i < old(self).log@.len() ==> #[trigger] final(self).log@[i] == old(self).log@[i],
            final(self).log@.len() >= old(self).log@.len(),
            !(message.body.payload is Control || message.body.payload is Reset) ==> final(self).network == old(self).network,
            needs_capability(message.body.payload) && !may_send(old(self).nodes.nodes()[source_id].capabilities, message.body.payload)
                ==> *final(self) == *old(self) && (r matches Err(CoreError::IllegalCoreMessage { name, message: m })
                    && name@ == message.src@ && m == message),
            !core_request(message.body.payload) ==> *final(self) == *old(self) && (r matches Err(CoreError::UnknownCoreMessage { name, ty })
                && name@ == message.src@ && ty@ == message.body.ty@),
            message.body.payload matches Payload::Timer { name, millis } ==> r is Ok && ({
                let d = old(self).now.saturating_add(millis);
                let at = count_not_after(old(self).timer_manager@, d) as int;
                &&& *final(self) == (Core { timer_manager: final(self).timer_manager, ..*old(self) })
                &&& final(self).timer_manager@ == old(self).timer_manager@.insert(at, final(self).timer_manager@[at])
                &&& final(self).timer_manager@[at].deadline == d
                &&& final(self).timer_manager@[at].kind matches TimerKind::TimerService { source, msg_id, name: n }
                &&& source@ == message.src@ && msg_id == message.body.id && n@ == name@
            }),
            message.body.payload matches Payload::Log(lm) ==> r is Ok && final(self).log@.len() == old(self).log@.len() + 1
                && final(self).log@.last().text@ == log_text(message.src@, old(self).nodes.nodes()[source_id].name@, lm)
                && final(self).nodes == old(self).nodes && final(self).state == old(self).state,
            message.body.payload is Register ==> final(self).nodes.names() == old(self).nodes.names() && (if old(self).nodes.nodes()[source_id].requires_registration {
                r is Ok && final(self).nodes.nodes() == old(self).nodes.nodes().insert(
                    source_id, Node { requires_registration: false, ..old(self).nodes.nodes()[source_id] })
            } else {
                *final(self) == *old(self) && (r matches Err(CoreError::UnexpectedRegistration { name })
                    && name@ == old(self).nodes.nodes()[source_id].name@)
            }),
            message.body.payload is Reset && may_send(old(self).nodes.nodes()[source_id].capabilities, message.body.payload) ==> r is Ok
                && final(self).nodes.names() == kept_names(old(self).nodes.names(), source_id, Some(old(self).nodes.nodes()[source_id].name@)),
            message.body.payload matches Payload::BeginMonitor { src_match, dst_match }
                ==> !may_send(old(self).nodes.nodes()[source_id].capabilities, message.body.payload) || r is Ok
                && *final(self) == (Core { monitor_sessions: final(self).monitor_sessions, ..*old(self) })
                && final(self).monitor_sessions@.drop_last() == old(self).monitor_sessions@
                && final(self).monitor_sessions@.len() == old(self).monitor_sessions@.len() + 1
                && final(self).monitor_sessions@.last().source@ == message.src@
                && final(self).monitor_sessions@.last().src_match@ == src_match@
                && final(self).monitor_sessions@.last().dst_match@ == dst_match@,
            message.body.payload is Break && may_send(old(self).nodes.nodes()[source_id].capabilities, message.body.payload) ==> r is Ok
                && *final(self) == (Core {
                    state: if old(self).interactive { CoreState::Paused } else { old(self).state },
                    ..*old(self)
                }),
            message.body.payload matches Payload::Control(c)
                ==> !may_send(old(self).nodes.nodes()[source_id].capabilities, message.body.payload) || (c is Break ==> final(self).state == CoreState::Paused)
                && (c is Step ==> final(self).state == CoreState::Stepping)
                && (c is Resume ==> final(self).state == CoreState::Running)
                && (c matches Control::Drop { sent_timestamp } ==> final(self).network@ == spec_remove_one(old(self).network@, sent_timestamp as nat).1),
            message.body.payload is SubscribeEvents && may_send(old(self).nodes.nodes()[source_id].capabilities, message.body.payload)
                ==> final(self).event_subscribers@ == old(self).event_subscribers@.push(source_id)
                && final(self).nodes == old(self).nodes && final(self).network == old(self).network,
            message.body.payload matches Payload::Alias { name }
                ==> !may_send(old(self).nodes.nodes()[source_id].capabilities, message.body.payload) || final(self).nodes.nodes() == old(self).nodes.nodes() && final(self).nodes.names() == (if old(self).nodes.names().contains_key(name@) {
                    old(self).nodes.names()
                } else {
                    old(self).nodes.names().insert(name@, source_id)
                }),
            message.body.payload matches Payload::Launch { name, .. }
                ==> !may_send(old(self).nodes.nodes()[source_id].capabilities, message.body.payload) || (forall|x: NodeId| #[trigger] old(self).nodes.nodes().contains_key(x) ==> final(self).nodes.nodes().contains_key(x)
                    && final(self).nodes.nodes()[x] == old(self).nodes.nodes()[x])
                && (final(self).nodes.nodes().dom() != old(self).nodes.nodes().dom() ==> final(self).nodes.names()
                    == old(self).nodes.names().insert(name@, final(self).nodes.names()[name@])
                    && final(self).nodes.nodes()[final(self).nodes.names()[name@]].launched_by == Some(source_id)),
    {
        proof {
            self.nodes.lemma_wf_facts();
        }
        let allowed = self.nodes.get(source_id).unwrap().has_capability(type_of(&message.body.payload));
        let needs = match &message.body.payload {
            Payload::Reset => true,
            Payload::Launch { .. } => true,
            Payload::Alias { .. } => true,
            Payload::BeginMonitor { .. } => true,
            Payload::Break => true,
            Payload::Control(_) => true,
            Payload::SubscribeEvents => true,
            _ => false,
        };
        if needs && !allowed {
            let name = message.src.clone();
            return Err(CoreError::IllegalCoreMessage { name, message });
        }
        let src = message.src;
        let msg_id = message.body.id;
        let ty = message.body.ty;
        match message.body.payload {
            Payload::Timer { name, millis } => {
                let deadline = self.now.saturating_add(millis);
                self.timer_manager.add(deadline, TimerKind::TimerService { source: src, msg_id, name });
                proof {
                    let at = count_not_after(old(self).timer_manager@, deadline) as int;
                    let t = self.timer_manager@;
                    assert forall|i: int| 0 <= i < t.len() implies match (#[trigger] t[i]).kind {
                        TimerKind::ExpectRegistry { node_id } => self.nodes.nodes().contains_key(node_id),
                        _ => true,
                    } by {
                        if i < at {
                            assert(t[i] == old(self).timer_manager@[i]);
                        } else if i > at {
                            assert(t[i] == old(self).timer_manager@[i - 1]);
                        }
                    }
                }
                Ok(())
            },
            Payload::Log(lm) => {
                self.log(ts, source_id, Some(src), lm);
                Ok(())
            },
            Payload::Register => {
                let node = self.nodes.get(source_id).unwrap();
                if node.requires_registration {
                    self.nodes.set_requires_registration(source_id, false);
                    proof {
                        assert forall|x: NodeId| #[trigger] self.nodes.nodes().contains_key(x) <==> old(self).nodes.nodes().contains_key(x) by {}
                    }
                    Ok(())
                } else {
                    Err(CoreError::UnexpectedRegistration { name: node.name.clone() })
                }
            },
            Payload::Reset => {
                self.initiate_reset(source_id);
                Ok(())
            },
            Payload::Launch { name, command_name, request_exited_message } => {
                self.launch_single(name, command_name.as_str(), source_id, request_exited_message, spawner)
            },
            Payload::Alias { name } => self.create_alias(source_id, name),
            Payload::BeginMonitor { src_match, dst_match } => {
                self.monitor_sessions.push(MonitorSession::new(src, src_match, dst_match));
                proof {
                    assert(self.monitor_sessions@.drop_last() =~= old(self).monitor_sessions@);
                    let ss = self.monitor_sessions@;
                    assert forall|k: int| 0 <= k < ss.len() implies self.nodes.names().contains_key((#[trigger] ss[k]).source@) by {
                        if k < ss.len() - 1 {
                            assert(ss[k] == old(self).monitor_sessions@[k]);
                        }
                    }
                }
                Ok(())
            },
            Payload::Break => {
                if self.interactive {
                    self.state = CoreState::Paused;
                }
                Ok(())
            },
            Payload::Control(c) => self.handle_control_message(c),
            Payload::SubscribeEvents => {
                let r = self.subscribe_events(source_id);
                match r {
                    Ok(()) => Ok(()),
                    Err(e) => Err(e),
                }
            },
            _ => Err(CoreError::UnknownCoreMessage { name: src, ty }),
        }
    }
    /// Dispatches `message`, sent by the node `source_id` at `ts`: it is refused unless
    /// its source is a name of that node; otherwise the subscribers learn that it was
    /// sent, a message to the core is handled at once, and any other message enters the
    /// network, watched by the monitoring sessions.
    #[verifier::spinoff_prover]
    #[verifier::rlimit(40)]
    fn dispatch<S: Spawner<P>>(&mut self, source_id: NodeId, ts: Timestamp, message: Message, spawner: &mut S) -> (r: Result<(), CoreError>)
        requires
            old(self).inv(),
            old(self).nodes.nodes().contains_key(source_id),
            ts.logical < old(self).timestamp_source.next_logical(),
            forall|i: int| 0 <= i < old(self).network@.len() ==> ts_of(#[trigger] old(self).network@[i]) < ts.logical,
        ensures
            refers_to(old(self).nodes.names(), message.src@, source_id) && message.dest@ != old(self).core_name@
                && message.src@ == old(self).core_name@ && old(self).timestamp_source.next_logical() < usize::MAX
                ==> final(self).network@ == after_delivery(
                    old(self).nodes.nodes(), old(self).nodes.names(), old(self).network@, Some(source_id)),
            refers_to(old(self).nodes.names(), message.src@, source_id) ==> forall|k: int| 0 <= k < old(self).event_subscribers@.len()
                ==> send_notice(#[trigger] final(self).outbox@[old(self).outbox@.len() + k], old(self).event_subscribers@[k], old(self).core_name@,
                    old(self).nodes.nodes()[old(self).event_subscribers@[k]].name@, ts.logical as nat, message),
            refers_to(old(self).nodes.names(), message.src@, source_id) && message.dest@ == old(self).core_name@
                ==> Self::request_prompt(*old(self), *final(self), source_id, message, r, 7),
            refers_to(old(self).nodes.names(), message.src@, source_id) && message.dest@ == old(self).core_name@
                ==> Self::request_handled(*old(self), *final(self), source_id, message, r),
            final(self).inv(),
            final(self).core_name == old(self).core_name,
            final(self).commands == old(self).commands,
            final(self).interactive == old(self).interactive,
            final(self).now == old(self).now,
            final(self).network.order() == old(self).network.order(),
            final(self).timestamp_source.next_logical() >= old(self).timestamp_source.next_logical(),
            forall|i: int| 0 <= i < old(self).outbox@.len() ==> #[trigger] final(self).outbox@[i] == old(self).outbox@[i],
            final(self).outbox@.len() >= old(self).outbox@.len(),
            forall|i: int| 0 <= i < old(self).log@.len() ==> #[trigger] final(self).log@[i] == old(self).log@[i],
            final(self).log@.len() >= old(self).log@.len(),
            !refers_to(old(self).nodes.names(), message.src@, source_id) ==> *final(self) == *old(self) && (r matches Err(
                CoreError::DispatchError { name, message: m, kind: DispatchErrorKind::SourceNameMismatch(got, aliases) },
            ) && name@ == old(self).nodes.nodes()[source_id].name@ && m == message && got@ == message.src@
                && forall|x: Seq<char>| has_str(aliases@, x) <==> refers_to(old(self).nodes.names(), x, source_id)),
            refers_to(old(self).nodes.names(), message.src@, source_id) && message.dest@ == old(self).core_name@
                && !(message.body.payload is Control || message.body.payload is Reset) ==> final(self).network == old(self).network,
            refers_to(old(self).nodes.names(), message.src@, source_id) && message.dest@ == old(self).core_name@
                && needs_capability(message.body.payload) && !may_send(old(self).nodes.nodes()[source_id].capabilities, message.body.payload)
                ==> (r matches Err(CoreError::IllegalCoreMessage { name, message: m }) && name@ == message.src@ && m == message)
                && final(self).nodes == old(self).nodes && final(self).network == old(self).network
                && final(self).timer_manager == old(self).timer_manager && final(self).state == old(self).state,
            refers_to(old(self).nodes.names(), message.src@, source_id) && message.dest@ != old(self).core_name@
                && message.src@ != old(self).core_name@ ==> r is Ok && final(self).network@ == spec_insert(
                    old(self).network@,
                    MessageInTransit {
                        sent_timestamp: ts,
                        message,
                        source: Some(source_id),
                        delivery_notice: DeliveryNotice::NotRequested,
                    },
                ) && final(self).nodes == old(self).nodes && final(self).timer_manager == old(self).timer_manager
                && final(self).state == old(self).state && final(self).monitor_sessions == old(self).monitor_sessions
                && final(self).event_subscribers == old(self).event_subscribers,
    {
        proof {
            self.nodes.lemma_wf_facts();
        }
        if !self.nodes.has_alias(source_id, message.src.as_str()) {
            let aliases = self.nodes.aliases_of(source_id);
            let got = message.src.clone();
            let name = self.nodes.get(source_id).unwrap().name.clone();
            proof {
                assert forall|x: Seq<char>| has_str(aliases@, x) <==> refers_to(old(self).nodes.names(), x, source_id) by {
                    if has_str(aliases@, x) {
                        let k = choose|k: int| 0 <= k < aliases@.len() && (#[trigger] aliases@[k])@ == x;
                    }
                    if refers_to(old(self).nodes.names(), x, source_id) {
                        let k = choose|k: int| 0 <= k < aliases@.len() && (#[trigger] aliases@[k])@ == x;
                        assert(has_str(aliases@, x));
                    }
                }
            }
            return Err(CoreError::DispatchError { name, message, kind: DispatchErrorKind::SourceNameMismatch(got, aliases) });
        }
        self.publish_event(Event { timestamp: ts, kind: EventKind::SendMessage(Box::new(clone_message(&message))) });
        let ghost published = self.outbox@;
        proof {
            assert forall|k: int| 0 <= k < old(self).event_subscribers@.len() implies send_notice(
                #[trigger] published[old(self).outbox@.len() + k], old(self).event_subscribers@[k], old(self).core_name@,
                old(self).nodes.nodes()[old(self).event_subscribers@[k]].name@, ts.logical as nat, message) by {
            }
        }
        if str_eq(message.dest.as_str(), self.core_name.as_str()) {
            let r = self.handle_core_message(source_id, ts, message, spawner);
            proof {
                assert forall|k: int| 0 <= k < old(self).event_subscribers@.len() implies send_notice(
                    #[trigger] self.outbox@[old(self).outbox@.len() + k], old(self).event_subscribers@[k], old(self).core_name@,
                    old(self).nodes.nodes()[old(self).event_subscribers@[k]].name@, ts.logical as nat, message) by {
                    assert(self.outbox@[old(self).outbox@.len() + k] == published[old(self).outbox@.len() + k]);
                }
            }
            return r;
        }
        self.send_monitor_event(ts, &message, None);
        if str_eq(message.src.as_str(), self.core_name.as_str()) {
            let now = match self.tick() {
                Some(now) => now,
                None => return Err(CoreError::ClockExhausted),
            };
            self.deliver(now, Some(source_id), message)
        } else {
            let ghost q = self.network@;
            let ghost mt = MessageInTransit {
                sent_timestamp: ts,
                message,
                source: Some(source_id),
                delivery_notice: DeliveryNotice::NotRequested,
            };
            proof {
                if holds_time(q, ts.logical as nat) {
                    let i = choose|i: int| 0 <= i < q.len() && ts_of(#[trigger] q[i]) == ts.logical as nat;
                }
                crate::network::lemma_insert_elements(q, mt);
            }
            self.network.insert(ts, Some(source_id), message, DeliveryNotice::NotRequested);
            proof {
                let nq = self.network@;
                assert forall|i: int| 0 <= i < nq.len() implies ts_of(#[trigger] nq[i]) < self.timestamp_source.next_logical()
                    && match nq[i].source {
                        Some(sid) => self.nodes.names().contains_key(nq[i].message.src@) && self.nodes.names()[nq[i].message.src@] == sid,
                        None => true,
                    } by {
                    assert(nq[i] == mt || q.contains(nq[i]));
                    if nq[i] != mt {
                        let j = choose|j: int| 0 <= j < q.len() && q[j] == nq[i];
                    }
                }
            }
            Ok(())
        }
    }
    /// Handles the end of the process of the node `id` (with its exit code, or `None`
    /// when it was aborted): the nodes it launched are asked to shut down, the
    /// subscribers learn that it disconnected, and it is removed once nothing of it is
    /// left in transit.
    fn process_exited(&mut self, ts: Timestamp, id: NodeId, exit_code: Option<i32>) -> (r: Result<(), CoreError>)
        requires
            old(self).inv(),
            old(self).nodes.nodes().contains_key(id),
        ensures
            r matches Err(e) ==> e is DispatchError || e is UnknownCoreMessage || e is ClockExhausted,
            final(self).inv(),
            final(self).core_name == old(self).core_name,
            final(self).commands == old(self).commands,
            final(self).state == old(self).state,
            final(self).interactive == old(self).interactive,
            final(self).now == old(self).now,
            final(self).log == old(self).log,
            final(self).network.order() == old(self).network.order(),
            final(self).timestamp_source.next_logical() >= old(self).timestamp_source.next_logical(),
            forall|i: int| 0 <= i < old(self).outbox@.len() ==> #[trigger] final(self).outbox@[i] == old(self).outbox@[i],
            final(self).outbox@.len() >= old(self).outbox@.len(),
            forall|x: NodeId| #[trigger] old(self).nodes.nodes().contains_key(x) && old(self).nodes.nodes()[x].launched_by == Some(id)
                ==> exists|k: int| old(self).outbox@.len() <= k < final(self).outbox@.len()
                    && #[trigger] final(self).outbox@[k] == (Outgoing { to: x, command: ProcessCommand::Shutdown }),
            has_message_from(old(self).network@, id) ==> final(self).nodes.nodes() == old(self).nodes.nodes().insert(
                id, Node { exit_status: ended_status(exit_code), ..old(self).nodes.nodes()[id] })
                && final(self).nodes.names() == old(self).nodes.names() && final(self).network == old(self).network,
            !has_message_from(old(self).network@, id) ==> final(self).nodes.nodes().dom() == old(self).nodes.nodes().dom().remove(id)
                && final(self).nodes.names() == kept_names(old(self).nodes.names(), id, None),
    {
        let status = match exit_code {
            Some(c) => ExitStatus::Exited(c),
            None => ExitStatus::Aborted,
        };
        self.nodes.set_exit_status(id, status);
        proof {
            assert forall|x: NodeId| #[trigger] self.nodes.nodes().contains_key(x) <==> old(self).nodes.nodes().contains_key(x) by {}
            assert(self.nodes.nodes().dom() =~= old(self).nodes.nodes().dom());
        }
        let ghost before = *self;
        let count = self.begin_shutdown_timeout(ShutdownSelection::LaunchedBy(id));
        let ghost after_shutdown = *self;
        proof {
            assert forall|x: NodeId| #[trigger] old(self).nodes.nodes().contains_key(x) && old(self).nodes.nodes()[x].launched_by == Some(id)
                implies exists|k: int| old(self).outbox@.len() <= k < after_shutdown.outbox@.len()
                    && #[trigger] after_shutdown.outbox@[k] == (Outgoing { to: x, command: ProcessCommand::Shutdown }) by {
                let j = choose|j: int| 0 <= j < count && (#[trigger] after_shutdown.outbox@[before.outbox@.len() + j]).to == x;
                let k = before.outbox@.len() + j;
                assert(after_shutdown.outbox@[k].command is Shutdown);
            }
        }
        let name = self.nodes.get(id).unwrap().name.clone();
        self.publish_event(Event { timestamp: ts, kind: EventKind::NodeDisconnected { name, exit_code } });
        let ghost published = *self;
        let r = self.check_exited(id);
        proof {
            assert forall|x: NodeId| #[trigger] old(self).nodes.nodes().contains_key(x) && old(self).nodes.nodes()[x].launched_by == Some(id)
                implies exists|k: int| old(self).outbox@.len() <= k < self.outbox@.len()
                    && #[trigger] self.outbox@[k] == (Outgoing { to: x, command: ProcessCommand::Shutdown }) by {
                let k = choose|k: int| old(self).outbox@.len() <= k < after_shutdown.outbox@.len()
                    && #[trigger] after_shutdown.outbox@[k] == (Outgoing { to: x, command: ProcessCommand::Shutdown });
                assert(published.outbox@[k] == after_shutdown.outbox@[k]);
                assert(self.outbox@[k] == published.outbox@[k]);
            }
        }
        r
    }

    /// Handles an event of the process of the node `source_id`, at `ts`. Returns
    /// `true` unless the event was a message.
    #[verifier::spinoff_prover]
    fn handle_process_event<S: Spawner<P>>(&mut self, ts: Timestamp, source_id: NodeId, event: ProcessEvent, spawner: &mut S) -> (r: Result<bool, CoreError>)
        requires
            old(self).inv(),
            old(self).nodes.nodes().contains_key(source_id),
            ts.logical < old(self).timestamp_source.next_logical(),
            forall|i: int| 0 <= i < old(self).network@.len() ==> ts_of(#[trigger] old(self).network@[i]) < ts.logical,
        ensures
            event matches ProcessEvent::Message(message) ==> (refers_to(old(self).nodes.names(), message.src@, source_id)
                ==> forall|k: int| 0 <= k < old(self).event_subscribers@.len() ==> send_notice(
                    #[trigger] final(self).outbox@[old(self).outbox@.len() + k], old(self).event_subscribers@[k], old(self).core_name@,
                    old(self).nodes.nodes()[old(self).event_subscribers@[k]].name@, ts.logical as nat, message)),
            event matches ProcessEvent::Message(message) ==> (refers_to(old(self).nodes.names(), message.src@, source_id)
                && message.dest@ == old(self).core_name@ ==> Self::request_prompt(*old(self), *final(self), source_id, message,
                    match r { Ok(_) => Ok(()), Err(e) => Err(e) }, 7)),
            event matches ProcessEvent::Message(message) ==> (refers_to(old(self).nodes.names(), message.src@, source_id)
                && message.dest@ == old(self).core_name@ ==> Self::request_handled(*old(self), *final(self), source_id, message,
                    match r { Ok(_) => Ok(()), Err(e) => Err(e) })),
            final(self).inv(),
            final(self).core_name == old(self).core_name,
            final(self).commands == old(self).commands,
            final(self).interactive == old(self).interactive,
            final(self).now == old(self).now,
            final(self).network.order() == old(self).network.order(),
            final(self).timestamp_source.next_logical() >= old(self).timestamp_source.next_logical(),
            forall|i: int| 0 <= i < old(self).outbox@.len() ==> #[trigger] final(self).outbox@[i] == old(self).outbox@[i],
            final(self).outbox@.len() >= old(self).outbox@.len(),
            forall|i: int| 0 <= i < old(self).log@.len() ==> #[trigger] final(self).log@[i] == old(self).log@[i],
            final(self).log@.len() >= old(self).log@.len(),
            event matches ProcessEvent::Message(message) ==> {
                &&& r is Ok ==> r == Ok::<bool, CoreError>(false)
                &&& !refers_to(old(self).nodes.names(), message.src@, source_id) ==> *final(self) == *old(self) && (r matches Err(
                    CoreError::DispatchError { name, message: m, kind: DispatchErrorKind::SourceNameMismatch(got, aliases) },
                ) && name@ == old(self).nodes.nodes()[source_id].name@ && m == message && got@ == message.src@
                    && forall|x: Seq<char>| has_str(aliases@, x) <==> refers_to(old(self).nodes.names(), x, source_id))
                &&& refers_to(old(self).nodes.names(), message.src@, source_id) && message.dest@ == old(self).core_name@
                    && !(message.body.payload is Control || message.body.payload is Reset) ==> final(self).network == old(self).network
                &&& refers_to(old(self).nodes.names(), message.src@, source_id) && message.dest@ == old(self).core_name@
                    && needs_capability(message.body.payload) && !may_send(old(self).nodes.nodes()[source_id].capabilities, message.body.payload)
                    ==> (r matches Err(CoreError::IllegalCoreMessage { name, message: m }) && name@ == message.src@ && m == message)
                    && final(self).nodes == old(self).nodes && final(self).network == old(self).network
                    && final(self).timer_manager == old(self).timer_manager && final(self).state == old(self).state
                &&& refers_to(old(self).nodes.names(), message.src@, source_id) && message.dest@ != old(self).core_name@
                    && message.src@ != old(self).core_name@ ==> r == Ok::<bool, CoreError>(false) && final(self).network@ == spec_insert(
                        old(self).network@,
                        MessageInTransit {
                            sent_timestamp: ts,
                            message,
                            source: Some(source_id),
                            delivery_notice: DeliveryNotice::NotRequested,
                        },
                    ) && final(self).nodes == old(self).nodes && final(self).timer_manager == old(self).timer_manager
                    && final(self).state == old(self).state
            },
            event matches ProcessEvent::Log(text) ==> r == Ok::<bool, CoreError>(true) && final(self).nodes == old(self).nodes
                && final(self).network == old(self).network && final(self).state == old(self).state
                && final(self).log@.len() == old(self).log@.len() + 1 && final(self).log@.last().text@ == log_text(
                    old(self).nodes.nodes()[source_id].name@,
                    old(self).nodes.nodes()[source_id].name@,
                    LogMessage { text, marker: None },
                ),
            event matches ProcessEvent::SerializeError { raw_message, error } ==> *final(self) == *old(self) && (r matches Err(
                CoreError::SerializeError { source, raw_message: raw, error: e }) && raw@ == raw_message@ && e@ == error@
                && source@ == old(self).nodes.nodes()[source_id].commandline@),
    {
        match event {
            ProcessEvent::Message(message) => {
                let r = self.dispatch(source_id, ts, message, spawner);
                match r {
                    Ok(()) => Ok(false),
                    Err(e) => Err(e),
                }
            },
            ProcessEvent::Log(text) => {
                let ghost lm = LogMessage { text, marker: None };
                self.log(ts, source_id, None, LogMessage { text, marker: None });
                Ok(true)
            },
            ProcessEvent::SerializeError { raw_message, error } => {
                let source = self.nodes.get(source_id).unwrap().commandline();
                Err(CoreError::SerializeError { source, raw_message, error })
            },
        }
    }

    /// Handles an event or the end of the process of the node `source_id`, stamped with
    /// a new timestamp. Returns `true` unless the event was a message. Fails with
    /// [`CoreError::ClockExhausted`], changing nothing, when no timestamp is left.
    #[verifier::spinoff_prover]
    #[verifier::rlimit(80)]
    pub fn handle_process_event_or_exit<S: Spawner<P>>(
        &mut self,
        source_id: NodeId,
        event: ProcessEventOrExit,
        spawner: &mut S,
    ) -> (r: Result<bool, CoreError>)
        requires
            event matches ProcessEventOrExit::Event(ProcessEvent::Message(m)) ==> well_formed(m),
            old(self).inv(),
            old(self).spec_nodes().contains_key(source_id),
        ensures
            old(self).spec_next_logical() < usize::MAX ==> (event matches ProcessEventOrExit::Event(ProcessEvent::Message(message)) ==> (
                refers_to(old(self).spec_names(), message.src@, source_id) ==> forall|k: int| 0 <= k < old(self).spec_subscribers().len()
                ==> send_notice(#[trigger] final(self).spec_outbox()[old(self).spec_outbox().len() + k], old(self).spec_subscribers()[k],
                    old(self).spec_core_name(), old(self).spec_nodes()[old(self).spec_subscribers()[k]].name@,
                    old(self).spec_next_logical(), message))),
            old(self).spec_next_logical() < usize::MAX ==> (event matches ProcessEventOrExit::Event(ProcessEvent::Message(message)) ==> (
                refers_to(old(self).spec_names(), message.src@, source_id) && message.dest@ == old(self).spec_core_name()
                ==> Self::request_handled(*old(self), *final(self), source_id, message, match r { Ok(_) => Ok(()), Err(e) => Err(e) }))),
            final(self).inv(),
            final(self).spec_core_name() == old(self).spec_core_name(),
            final(self).spec_commands() == old(self).spec_commands(),
            final(self).spec_interactive() == old(self).spec_interactive(),
            final(self).spec_now() == old(self).spec_now(),
            forall|i: int| 0 <= i < old(self).spec_outbox().len() ==> #[trigger] final(self).spec_outbox()[i] == old(self).spec_outbox()[i],
            final(self).spec_outbox().len() >= old(self).spec_outbox().len(),
            forall|i: int| 0 <= i < old(self).spec_log().len() ==> #[trigger] final(self).spec_log()[i] == old(self).spec_log()[i],
            final(self).spec_log().len() >= old(self).spec_log().len(),
            old(self).spec_next_logical() == usize::MAX ==> *final(self) == *old(self) && r matches Err(CoreError::ClockExhausted),
            old(self).spec_next_logical() < usize::MAX ==> final(self).spec_next_logical() > old(self).spec_next_logical(),
            old(self).spec_next_logical() < usize::MAX ==> (event matches ProcessEventOrExit::Event(ProcessEvent::Message(message)) ==> {
                    &&& r is Ok ==> r == Ok::<bool, CoreError>(false)
                    &&& !refers_to(old(self).spec_names(), message.src@, source_id) ==> final(self).spec_nodes() == old(self).spec_nodes()
                        && final(self).spec_names() == old(self).spec_names() && final(self).spec_network() == old(self).spec_network()
                        && (r matches Err(CoreError::DispatchError { name, message: m, kind: DispatchErrorKind::SourceNameMismatch(got, aliases) })
                        && name@ == old(self).spec_nodes()[source_id].name@ && m == message && got@ == message.src@
                        && forall|x: Seq<char>| has_str(aliases@, x) <==> refers_to(old(self).spec_names(), x, source_id))
                    &&& refers_to(old(self).spec_names(), message.src@, source_id) && message.dest@ == old(self).spec_core_name()
                        && !(message.body.payload is Control || message.body.payload is Reset)
                        ==> final(self).spec_network() == old(self).spec_network()
                    &&& refers_to(old(self).spec_names(), message.src@, source_id) && message.dest@ == old(self).spec_core_name()
                        && needs_capability(message.body.payload) && !may_send(old(self).spec_nodes()[source_id].capabilities, message.body.payload)
                        ==> (r matches Err(CoreError::IllegalCoreMessage { name, message: m }) && name@ == message.src@ && m == message)
                        && final(self).spec_nodes() == old(self).spec_nodes() && final(self).spec_names() == old(self).spec_names()
                        && final(self).spec_network() == old(self).spec_network()
                        && final(self).spec_timers() == old(self).spec_timers() && final(self).spec_state() == old(self).spec_state()
                    &&& refers_to(old(self).spec_names(), message.src@, source_id) && message.dest@ != old(self).spec_core_name()
                        && message.src@ != old(self).spec_core_name() ==> r == Ok::<bool, CoreError>(false) && (exists|ts: Timestamp|
                        ts.logical == old(self).spec_next_logical() && final(self).spec_network() == spec_insert(
                            old(self).spec_network(),
                            MessageInTransit {
                                sent_timestamp: ts,
                                message,
                                source: Some(source_id),
                                delivery_notice: DeliveryNotice::NotRequested,
                            },
                        )) && final(self).spec_nodes() == old(self).spec_nodes() && final(self).spec_names() == old(self).spec_names()
                        && final(self).spec_timers() == old(self).spec_timers() && final(self).spec_state() == old(self).spec_state()
                }),
            old(self).spec_next_logical() < usize::MAX ==> (event matches ProcessEventOrExit::Event(ProcessEvent::Log(text)) ==> r == Ok::<bool, CoreError>(true)
                    && final(self).spec_nodes() == old(self).spec_nodes() && final(self).spec_network() == old(self).spec_network()
                    && final(self).spec_log().len() == old(self).spec_log().len() + 1 && final(self).spec_log().last().text@ == log_text(
                        old(self).spec_nodes()[source_id].name@,
                        old(self).spec_nodes()[source_id].name@,
                        LogMessage { text, marker: None },
                    )),
            old(self).spec_next_logical() < usize::MAX ==> (event matches ProcessEventOrExit::Event(ProcessEvent::SerializeError { raw_message, error }) ==> final(self).spec_nodes() == old(self).spec_nodes()
                    && final(self).spec_network() == old(self).spec_network()
                    && (r matches Err(CoreError::SerializeError { source, raw_message: raw, error: e }) && raw@ == raw_message@ && e@ == error@
                    && source@ == old(self).spec_nodes()[source_id].commandline@)),
            old(self).spec_next_logical() < usize::MAX && (event is Exited || event is Aborted) ==> (r == Ok::<bool, CoreError>(true)
                || (r matches Err(CoreError::DispatchError { .. })) || (r matches Err(CoreError::UnknownCoreMessage { .. }))
                || (r matches Err(CoreError::ClockExhausted))),
            old(self).spec_next_logical() < usize::MAX && (event is Exited || event is Aborted) ==> forall|x: NodeId|
                #[trigger] old(self).spec_nodes().contains_key(x) && old(self).spec_nodes()[x].launched_by == Some(source_id)
                ==> exists|k: int| old(self).spec_outbox().len() <= k < final(self).spec_outbox().len()
                    && #[trigger] final(self).spec_outbox()[k] == (Outgoing { to: x, command: ProcessCommand::Shutdown }),
            old(self).spec_next_logical() < usize::MAX && (event is Exited || event is Aborted) && has_message_from(old(self).spec_network(), source_id)
                ==> final(self).spec_nodes() == old(self).spec_nodes().insert(source_id, Node {
                    exit_status: match event {
                        ProcessEventOrExit::Exited(c) => ExitStatus::Exited(c),
                        _ => ExitStatus::Aborted,
                    },
                    ..old(self).spec_nodes()[source_id]
                }) && final(self).spec_names() == old(self).spec_names() && final(self).spec_network() == old(self).spec_network(),
            old(self).spec_next_logical() < usize::MAX && (event is Exited || event is Aborted) && !has_message_from(old(self).spec_network(), source_id)
                ==> final(self).spec_nodes().dom() == old(self).spec_nodes().dom().remove(source_id)
                && final(self).spec_names() == kept_names(old(self).spec_names(), source_id, None),
            old(self).spec_next_logical() < usize::MAX && (event is Exited || event is Aborted) ==> final(self).spec_state() == old(self).spec_state(),
    {
        let ts = match self.tick() {
            Some(ts) => ts,
            None => return Err(CoreError::ClockExhausted),
        };
        match event {
            ProcessEventOrExit::Event(e) => {
                let ghost ticked = *self;
                let ghost ev = e;
                let r = self.handle_process_event(ts, source_id, e, spawner);
                proof {
                    if ev is Message {
                        let message = ev->Message_0;
                        if refers_to(old(self).spec_names(), message.src@, source_id) && message.dest@ != old(self).spec_core_name()
                            && message.src@ != old(self).spec_core_name() {
                            assert(ts.logical == old(self).spec_next_logical());
                            let mt = MessageInTransit {
                                sent_timestamp: ts,
                                message,
                                source: Some(source_id),
                                delivery_notice: DeliveryNotice::NotRequested,
                            };
                            assert(ticked.network@ == old(self).network@);
                            assert(self.spec_network() == spec_insert(old(self).spec_network(), mt));
                        }
                        if refers_to(old(self).spec_names(), message.src@, source_id) {
                            assert forall|k: int| 0 <= k < old(self).spec_subscribers().len() implies send_notice(
                                #[trigger] self.spec_outbox()[old(self).spec_outbox().len() + k], old(self).spec_subscribers()[k],
                                old(self).spec_core_name(), old(self).spec_nodes()[old(self).spec_subscribers()[k]].name@,
                                old(self).spec_next_logical(), message) by {
                                assert(self.spec_outbox()[old(self).spec_outbox().len() + k] == self.outbox@[old(self).outbox@.len() + k]);
                            }
                        }
                    }
                }
                r
            },
            ProcessEventOrExit::Exited(exit_code) => self.handle_exit(ts, source_id, Some(exit_code)),
            ProcessEventOrExit::Aborted => self.handle_exit(ts, source_id, None),
        }
    }

    /// Handles the end of the process of the node `id`, at `ts`, as seen from outside.
    fn handle_exit(&mut self, ts: Timestamp, id: NodeId, exit_code: Option<i32>) -> (r: Result<bool, CoreError>)
        requires
            old(self).inv(),
            old(self).nodes.nodes().contains_key(id),
        ensures
            final(self).inv(),
            final(self).spec_core_name() == old(self).spec_core_name(),
            final(self).spec_commands() == old(self).spec_commands(),
            final(self).spec_interactive() == old(self).spec_interactive(),
            final(self).spec_now() == old(self).spec_now(),
            final(self).spec_state() == old(self).spec_state(),
            final(self).spec_next_logical() >= old(self).spec_next_logical(),
            forall|i: int| 0 <= i < old(self).spec_outbox().len() ==> #[trigger] final(self).spec_outbox()[i] == old(self).spec_outbox()[i],
            final(self).spec_outbox().len() >= old(self).spec_outbox().len(),
            final(self).spec_log() == old(self).spec_log(),
            r == Ok::<bool, CoreError>(true) || (r matches Err(CoreError::DispatchError { .. }))
                || (r matches Err(CoreError::UnknownCoreMessage { .. })) || (r matches Err(CoreError::ClockExhausted)),
            forall|x: NodeId| #[trigger] old(self).spec_nodes().contains_key(x) && old(self).spec_nodes()[x].launched_by == Some(id)
                ==> exists|k: int| old(self).spec_outbox().len() <= k < final(self).spec_outbox().len()
                    && #[trigger] final(self).spec_outbox()[k] == (Outgoing { to: x, command: ProcessCommand::Shutdown }),
            has_message_from(old(self).spec_network(), id) ==> final(self).spec_nodes() == old(self).spec_nodes().insert(
                id, Node { exit_status: ended_status(exit_code), ..old(self).spec_nodes()[id] })
                && final(self).spec_names() == old(self).spec_names() && final(self).spec_network() == old(self).spec_network(),
            !has_message_from(old(self).spec_network(), id) ==> final(self).spec_nodes().dom() == old(self).spec_nodes().dom().remove(id)
                && final(self).spec_names() == kept_names(old(self).spec_names(), id, None),
    {
        let r = self.process_exited(ts, id, exit_code);
        proof {
            assert forall|x: NodeId| #[trigger] old(self).spec_nodes().contains_key(x) && old(self).spec_nodes()[x].launched_by == Some(id)
                implies exists|k: int| old(self).spec_outbox().len() <= k < self.spec_outbox().len()
                    && #[trigger] self.spec_outbox()[k] == (Outgoing { to: x, command: ProcessCommand::Shutdown }) by {
                let k = choose|k: int| old(self).outbox@.len() <= k < self.outbox@.len()
                    && #[trigger] self.outbox@[k] == (Outgoing { to: x, command: ProcessCommand::Shutdown });
                assert(self.spec_outbox()[k] == self.outbox@[k]);
            }
        }
        match r {
            Ok(()) => Ok(true),
            Err(e) => Err(e),
        }
    }
    /// Takes the oldest message out of the network, unless delivery is paused.
    fn get_next_message_for_delivery(&mut self) -> (r: Option<MessageInTransit>)
        requires
            old(self).inv(),
        ensures
            final(self).inv(),
            *final(self) == (Core { network: final(self).network, ..*old(self) }),
            final(self).network.order() == old(self).network.order(),
            old(self).state == CoreState::Paused || old(self).network@.len() == 0 ==> r is None && *final(self) == *old(self),
            old(self).state != CoreState::Paused && old(self).network@.len() > 0 ==> r == Some(old(self).network@[0])
                && final(self).network@ == old(self).network@.drop_first(),
    {
        if self.state != CoreState::Paused && !self.network.is_empty() {
            let ghost q = self.network@;
            let r = self.network.remove_next_oldest();
            proof {
                let nq = self.network@;
                assert forall|j: int| 0 <= j < nq.len() implies ts_of(#[trigger] nq[j]) < self.timestamp_source.next_logical()
                    && match nq[j].source {
                        Some(sid) => self.nodes.names().contains_key(nq[j].message.src@) && self.nodes.names()[nq[j].message.src@] == sid,
                        None => true,
                    } by {
                    if q.len() > 0 {
                        assert(nq[j] == q[j + 1]);
                    }
                }
            }
            r
        } else {
            None
        }
    }

    /// Delivers the oldest message in transit, unless delivery is paused; a single step
    /// pauses the delivery again. Returns `None` if nothing was delivered.
    #[verifier::spinoff_prover]
    pub fn deliver_next(&mut self) -> (r: Option<Result<(), CoreError>>)
        requires
            old(self).inv(),
        ensures
            old(self).spec_state() != CoreState::Paused && old(self).spec_network().len() > 0
                && old(self).spec_names().contains_key(old(self).spec_network()[0].message.dest@)
                && old(self).spec_next_logical() < usize::MAX ==> (r matches Some(Ok(_))) && ({
                let m = old(self).spec_network()[0].message;
                let at = (old(self).spec_outbox().len() + watching(old(self).spec_sessions(), m).len() + old(self).spec_subscribers().len()) as int;
                &&& final(self).spec_outbox()[at] == (Outgoing { to: old(self).spec_names()[m.dest@], command: ProcessCommand::Deliver(m) })
                &&& forall|k: int| old(self).spec_outbox().len() <= k < at ==> is_notice(#[trigger] final(self).spec_outbox()[k])
            }),
            old(self).spec_state() != CoreState::Paused && old(self).spec_network().len() > 0
                && old(self).spec_names().contains_key(old(self).spec_network()[0].message.dest@)
                && old(self).spec_next_logical() < usize::MAX ==> forall|k: int| 0 <= k < old(self).spec_subscribers().len() ==> delivery_notice(
                #[trigger] final(self).spec_outbox()[old(self).spec_outbox().len() + watching(old(self).spec_sessions(), old(self).spec_network()[0].message).len() + k],
                old(self).spec_subscribers()[k], old(self).spec_core_name(), old(self).spec_nodes()[old(self).spec_subscribers()[k]].name@,
                old(self).spec_network()[0].sent_timestamp.logical),
            old(self).spec_state() != CoreState::Paused && old(self).spec_network().len() > 0 ==> final(self).spec_network() == after_delivery(
                old(self).spec_nodes(), old(self).spec_names(), old(self).spec_network().drop_first(), old(self).spec_network()[0].source),
            final(self).inv(),
            final(self).spec_core_name() == old(self).spec_core_name(),
            final(self).spec_commands() == old(self).spec_commands(),
            final(self).spec_interactive() == old(self).spec_interactive(),
            final(self).spec_now() == old(self).spec_now(),
            forall|i: int| 0 <= i < old(self).spec_outbox().len() ==> #[trigger] final(self).spec_outbox()[i] == old(self).spec_outbox()[i],
            final(self).spec_outbox().len() >= old(self).spec_outbox().len(),
            forall|i: int| 0 <= i < old(self).spec_log().len() ==> #[trigger] final(self).spec_log()[i] == old(self).spec_log()[i],
            final(self).spec_log().len() >= old(self).spec_log().len(),
            old(self).spec_state() == CoreState::Paused || old(self).spec_network().len() == 0 ==> r is None && *final(self) == *old(self),
            old(self).spec_state() != CoreState::Paused && old(self).spec_network().len() > 0 ==> r is Some
                && final(self).spec_nodes().dom().subset_of(old(self).spec_nodes().dom())
                && final(self).spec_state() == (if old(self).spec_state() == CoreState::Stepping { CoreState::Paused } else { old(self).spec_state() }),
            old(self).spec_state() != CoreState::Paused && old(self).spec_network().len() > 0
                && !old(self).spec_names().contains_key(old(self).spec_network()[0].message.dest@) ==> (r matches Some(Err(
                    CoreError::DispatchError { name, message: e, kind: DispatchErrorKind::DestinationUnknown },
                )) && name@ == old(self).spec_network()[0].message.src@ && e == old(self).spec_network()[0].message),
            old(self).spec_state() != CoreState::Paused && old(self).spec_network().len() > 0
                && old(self).spec_names().contains_key(old(self).spec_network()[0].message.dest@)
                && old(self).spec_next_logical() < usize::MAX ==> exists|k: int|
                    old(self).spec_outbox().len() <= k < final(self).spec_outbox().len() && #[trigger] final(self).spec_outbox()[k] == (Outgoing {
                        to: old(self).spec_names()[old(self).spec_network()[0].message.dest@],
                        command: ProcessCommand::Deliver(old(self).spec_network()[0].message),
                    }),
    {
        match self.get_next_message_for_delivery() {
            Some(m) => {
                let ghost taken = *self;
                let ghost mg = m;
                let ghost mm = m.message;
                let r = self.deliver(m.sent_timestamp, m.source, m.message);
                proof {
                    assert(taken.nodes == old(self).nodes);
                    assert(taken.outbox == old(self).outbox);
                    assert(mm == old(self).spec_network()[0].message);
                }
                if self.state == CoreState::Stepping {
                    self.state = CoreState::Paused;
                }
                proof {
                    if old(self).spec_names().contains_key(mm.dest@) && old(self).spec_next_logical() < usize::MAX {
                        let w = watching(old(self).spec_sessions(), mm).len();
                        assert(mg == old(self).spec_network()[0]);
                        assert(taken.event_subscribers == old(self).event_subscribers);
                        assert(taken.monitor_sessions == old(self).monitor_sessions);
                        assert(taken.nodes == old(self).nodes);
                        assert(taken.timestamp_source == old(self).timestamp_source);
                        assert forall|k: int| 0 <= k < old(self).spec_subscribers().len() implies delivery_notice(
                            #[trigger] self.spec_outbox()[old(self).spec_outbox().len() + w + k],
                            old(self).spec_subscribers()[k], old(self).spec_core_name(), old(self).spec_nodes()[old(self).spec_subscribers()[k]].name@,
                            old(self).spec_network()[0].sent_timestamp.logical) by {
                            assert(self.spec_outbox()[old(self).spec_outbox().len() + w + k] == self.outbox@[old(self).outbox@.len() + w + k]);
                        }
                        assert(taken.nodes.names().contains_key(mm.dest@));
                        assert(taken.timestamp_source.next_logical() < usize::MAX);
                        let k = choose|k: int| taken.outbox@.len() <= k < self.outbox@.len() && #[trigger] self.outbox@[k] == (Outgoing {
                            to: taken.nodes.names()[mm.dest@],
                            command: ProcessCommand::Deliver(mm),
                        });
                        assert(self.spec_outbox()[k] == self.outbox@[k]);
                    }
                }
                Some(r)
            },
            None => None,
        }
    }

    /// The node `id` has registered, if it had to: fails otherwise.
    fn ensure_registered(&self, id: NodeId) -> (r: Result<(), CoreError>)
        requires
            self.inv(),
            self.nodes.nodes().contains_key(id),
        ensures
            r is Ok <==> !self.nodes.nodes()[id].requires_registration,
            r matches Err(e) ==> (e matches CoreError::MissingRegistration { name } && name@ == self.nodes.nodes()[id].name@),
    {
        let node = self.nodes.get(id).unwrap();
        if node.requires_registration {
            Err(CoreError::MissingRegistration { name: node.name.clone() })
        } else {
            Ok(())
        }
    }

    /// Terminates each of the nodes `ids` that is still there and has not finished.
    fn terminate_unfinished(&mut self, ids: &Vec<NodeId>)
        requires
            old(self).inv(),
        ensures
            final(self).inv(),
            *final(self) == (Core { outbox: final(self).outbox, ..*old(self) }),
            forall|i: int| 0 <= i < old(self).outbox@.len() ==> #[trigger] final(self).outbox@[i] == old(self).outbox@[i],
            final(self).outbox@.len() >= old(self).outbox@.len(),
            forall|k: int| old(self).outbox@.len() <= k < final(self).outbox@.len() ==> unfinished_abort(
                #[trigger] final(self).outbox@[k], ids@, old(self).nodes.nodes()),
            forall|j: int| 0 <= j < ids@.len() && old(self).nodes.nodes().contains_key(#[trigger] ids@[j])
                && old(self).nodes.nodes()[ids@[j]].exit_status is Running ==> exists|k: int|
                old(self).outbox@.len() <= k < final(self).outbox@.len()
                && #[trigger] final(self).outbox@[k] == (Outgoing { to: ids@[j], command: ProcessCommand::Abort }),
    {
        let n = ids.len();
        let mut i: usize = 0;
        while i < n
            invariant
                self.inv(),
                *self == (Core { outbox: self.outbox, ..*old(self) }),
                n == ids@.len(),
                0 <= i <= n,
                forall|j: int| 0 <= j < old(self).outbox@.len() ==> #[trigger] self.outbox@[j] == old(self).outbox@[j],
                self.outbox@.len() >= old(self).outbox@.len(),
                forall|k: int| old(self).outbox@.len() <= k < self.outbox@.len() ==> unfinished_abort(
                    #[trigger] self.outbox@[k], ids@, old(self).nodes.nodes()),
                forall|j: int| 0 <= j < i && old(self).nodes.nodes().contains_key(#[trigger] ids@[j])
                    && old(self).nodes.nodes()[ids@[j]].exit_status is Running ==> exists|k: int|
                    old(self).outbox@.len() <= k < self.outbox@.len()
                    && #[trigger] self.outbox@[k] == (Outgoing { to: ids@[j], command: ProcessCommand::Abort }),
            decreases n - i,
        {
            let id = ids[i];
            let ghost prev = self.outbox@;
            match self.nodes.get(id) {
                Some(node) => {
                    if !node.has_ended() {
                        self.outbox.push(Outgoing { to: id, command: ProcessCommand::Abort });
                        proof {
                            assert(ids@[i as int] == id);
                            assert(ids@.contains(id));
                        }
                    }
                },
                None => {},
            }
            proof {
                assert forall|j: int| 0 <= j < i + 1 && old(self).nodes.nodes().contains_key(#[trigger] ids@[j])
                    && old(self).nodes.nodes()[ids@[j]].exit_status is Running implies exists|k: int|
                    old(self).outbox@.len() <= k < self.outbox@.len()
                    && #[trigger] self.outbox@[k] == (Outgoing { to: ids@[j], command: ProcessCommand::Abort }) by {
                    if j < i {
                        let k = choose|k: int| old(self).outbox@.len() <= k < prev.len()
                            && #[trigger] prev[k] == (Outgoing { to: ids@[j], command: ProcessCommand::Abort });
                        assert(self.outbox@[k] == prev[k]);
                    } else {
                        assert(self.outbox@[self.outbox@.len() - 1] == (Outgoing { to: ids@[j], command: ProcessCommand::Abort }));
                    }
                }
            }
            i = i + 1;
        }
    }

    /// Handles the expired timer `timer`, which was outstanding: a timer-service timer is
    /// answered with a `timer_expired` message, a registration timer fails if its node
    /// has not registered, and a shutdown timer terminates the nodes that have not shut
    /// down.
    fn handle_timer_expired(&mut self, timer: Timer) -> (r: Result<(), CoreError>)
        requires
            old(self).inv(),
            timer.kind matches TimerKind::ExpectRegistry { node_id } ==> old(self).nodes.nodes().contains_key(node_id),
        ensures
            final(self).core_name == old(self).core_name,
            final(self).commands == old(self).commands,
            final(self).now == old(self).now,
            final(self).inv(),
            final(self).nodes == old(self).nodes,
            final(self).network == old(self).network,
            final(self).timer_manager == old(self).timer_manager,
            final(self).state == old(self).state,
            final(self).log == old(self).log,
            final(self).monitor_sessions == old(self).monitor_sessions,
            final(self).event_subscribers == old(self).event_subscribers,
            forall|i: int| 0 <= i < old(self).outbox@.len() ==> #[trigger] final(self).outbox@[i] == old(self).outbox@[i],
            final(self).outbox@.len() >= old(self).outbox@.len(),
            final(self).timestamp_source.next_logical() >= old(self).timestamp_source.next_logical(),
            timer.kind matches TimerKind::TimerService { source, msg_id, name } ==> (
                source@ != old(self).core_name@ && old(self).nodes.names().contains_key(source@)
                    && old(self).timestamp_source.next_logical() + 3 <= usize::MAX ==> r is Ok && ({
                        let o = final(self).outbox@.last();
                        &&& o.to == old(self).nodes.names()[source@]
                        &&& o.command matches ProcessCommand::Deliver(m)
                        &&& m.src@ == old(self).core_name@
                        &&& m.dest@ == source@
                        &&& m.body.in_reply_to == msg_id
                        &&& m.body.payload matches Payload::TimerExpired { name: n }
                        &&& n@ == name@
                    })),
            timer.kind matches TimerKind::ExpectRegistry { node_id } ==> *final(self) == *old(self) && (if old(self).nodes.nodes()[node_id].requires_registration {
                r matches Err(CoreError::MissingRegistration { name }) && name@ == old(self).nodes.nodes()[node_id].name@
            } else {
                r is Ok
            }),
            timer.kind matches TimerKind::ShutdownTimeout { node_ids } ==> r is Ok && (forall|k: int|
                old(self).outbox@.len() <= k < final(self).outbox@.len() ==> unfinished_abort(
                    #[trigger] final(self).outbox@[k], node_ids@, old(self).nodes.nodes()))
                && (forall|j: int| 0 <= j < node_ids@.len() && old(self).nodes.nodes().contains_key(#[trigger] node_ids@[j])
                    && old(self).nodes.nodes()[node_ids@[j]].exit_status is Running ==> exists|k: int|
                    old(self).outbox@.len() <= k < final(self).outbox@.len()
                    && #[trigger] final(self).outbox@[k] == (Outgoing { to: node_ids@[j], command: ProcessCommand::Abort })),
    {
        match timer.kind {
            TimerKind::TimerService { source, msg_id, name } => {
                let mut reply = Message::new(self.core_name.as_str(), source.as_str(), Payload::TimerExpired { name });
                reply.body.in_reply_to = msg_id;
                self.dispatch_from_core(reply)
            },
            TimerKind::ExpectRegistry { node_id } => self.ensure_registered(node_id),
            TimerKind::ShutdownTimeout { node_ids } => {
                self.terminate_unfinished(&node_ids);
                Ok(())
            },
        }
    }

    /// Handles the next outstanding timer if it has expired by the driver's clock.
    /// Returns `None` if no timer has expired.
    #[verifier::spinoff_prover]
    pub fn handle_expired_timer(&mut self) -> (r: Option<Result<(), CoreError>>)
        requires
            old(self).inv(),
        ensures
            final(self).inv(),
            final(self).spec_core_name() == old(self).spec_core_name(),
            final(self).spec_commands() == old(self).spec_commands(),
            final(self).spec_now() == old(self).spec_now(),
            final(self).spec_nodes() == old(self).spec_nodes(),
            final(self).spec_names() == old(self).spec_names(),
            final(self).spec_network() == old(self).spec_network(),
            final(self).spec_state() == old(self).spec_state(),
            forall|i: int| 0 <= i < old(self).spec_outbox().len() ==> #[trigger] final(self).spec_outbox()[i] == old(self).spec_outbox()[i],
            final(self).spec_outbox().len() >= old(self).spec_outbox().len(),
            !(old(self).spec_timers().len() > 0 && old(self).spec_timers()[0].deadline <= old(self).spec_now()) ==> r is None
                && *final(self) == *old(self),
            old(self).spec_timers().len() > 0 && old(self).spec_timers()[0].deadline <= old(self).spec_now() ==> r is Some
                && final(self).spec_timers() == old(self).spec_timers().drop_first(),
            old(self).spec_timers().len() > 0 && old(self).spec_timers()[0].deadline <= old(self).spec_now() ==> (
                old(self).spec_timers()[0].kind matches TimerKind::ExpectRegistry { node_id } ==> (if old(self).spec_nodes()[node_id].requires_registration {
                    r matches Some(Err(CoreError::MissingRegistration { name })) && name@ == old(self).spec_nodes()[node_id].name@
                } else {
                    (r matches Some(Ok(_)))
                })),
            old(self).spec_timers().len() > 0 && old(self).spec_timers()[0].deadline <= old(self).spec_now() ==> (
                old(self).spec_timers()[0].kind matches TimerKind::ShutdownTimeout { node_ids } ==> (r matches Some(Ok(_))) && (forall|k: int|
                    old(self).spec_outbox().len() <= k < final(self).spec_outbox().len() ==> unfinished_abort(
                        #[trigger] final(self).spec_outbox()[k], node_ids@, old(self).spec_nodes()))
                    && (forall|j: int| 0 <= j < node_ids@.len() && old(self).spec_nodes().contains_key(#[trigger] node_ids@[j])
                        && old(self).spec_nodes()[node_ids@[j]].exit_status is Running ==> exists|k: int|
                        old(self).spec_outbox().len() <= k < final(self).spec_outbox().len()
                        && #[trigger] final(self).spec_outbox()[k] == (Outgoing { to: node_ids@[j], command: ProcessCommand::Abort }))),
            old(self).spec_timers().len() > 0 && old(self).spec_timers()[0].deadline <= old(self).spec_now() ==> (
                old(self).spec_timers()[0].kind matches TimerKind::TimerService { source, msg_id, name } ==> (source@ != old(self).spec_core_name()
                    && old(self).spec_names().contains_key(source@) && old(self).spec_next_logical() + 3 <= usize::MAX
                    ==> (r matches Some(Ok(_))) && ({
                        let o = final(self).spec_outbox().last();
                        &&& o.to == old(self).spec_names()[source@]
                        &&& o.command matches ProcessCommand::Deliver(m)
                        &&& m.dest@ == source@
                        &&& m.body.in_reply_to == msg_id
                        &&& m.body.payload matches Payload::TimerExpired { name: n }
                        &&& n@ == name@
                    }))),
    {
        let ghost q = self.timer_manager@;
        match self.timer_manager.pop_expired(self.now) {
            Some(timer) => {
                proof {
                    let nt = self.timer_manager@;
                    assert(timer == q[0]);
                    assert forall|i: int| 0 <= i < nt.len() implies match (#[trigger] nt[i]).kind {
                        TimerKind::ExpectRegistry { node_id } => self.nodes.nodes().contains_key(node_id),
                        _ => true,
                    } by {
                        assert(nt[i] == q[i + 1]);
                    }
                }
                let ghost t = timer;
                let ghost popped = *self;
                let res = self.handle_timer_expired(timer);
                proof {
                    assert(t == old(self).spec_timers()[0]);
                    assert(popped.nodes == old(self).nodes);
                    assert(popped.outbox == old(self).outbox);
                    if t.kind is ExpectRegistry {
                        let node_id = t.kind->node_id;
                        assert(popped.nodes.nodes().contains_key(node_id));
                        if old(self).spec_nodes()[node_id].requires_registration {
                            assert(res matches Err(CoreError::MissingRegistration { name }) && name@ == old(self).spec_nodes()[node_id].name@);
                        } else {
                            assert(res is Ok);
                        }
                    }
                }
                Some(res)
            },
            None => None,
        }
    }
    /// The initial launches that have not happened yet.
    pub closed spec fn spec_launch_initial(self) -> Seq<InitialLaunch> {
        self.launch_initial@
    }

    /// Returns `true` if the node `id` is part of the simulation.
    pub fn has_node(&self, id: NodeId) -> (b: bool)
        requires
            self.inv(),
        ensures
            b == self.spec_nodes().contains_key(id),
    {
        self.nodes.get(id).is_some()
    }

    /// Starts the simulation: the subscribers are told of a reset, then the initial
    /// nodes are launched in their order, each is sent its `init` message and the
    /// subscribers are told of it. Stops at the first launch that fails.
    #[verifier::spinoff_prover]
    pub fn setup<S: Spawner<P>>(&mut self, spawner: &mut S) -> (r: Result<(), CoreError>)
        requires
            old(self).inv(),
        ensures
            r matches Err(e) ==> setup_error(e, old(self).spec_commands(), old(self).spec_names(), old(self).spec_core_name(),
                old(self).spec_launch_initial(), old(self).spec_next_logical(), old(self).spec_next_node_id()),
            final(self).spec_spawn_requests().len() <= old(self).spec_spawn_requests().len() + old(self).spec_launch_initial().len(),
            forall|k: int| old(self).spec_spawn_requests().len() <= k < final(self).spec_spawn_requests().len() ==> (
                #[trigger] final(self).spec_spawn_requests()[k]).1 == command_named(old(self).spec_commands(),
                old(self).spec_launch_initial()[k - old(self).spec_spawn_requests().len()].command@).command,
            old(self).spec_launch_initial().len() == 0 && old(self).spec_next_logical() < usize::MAX ==> r is Ok,
            final(self).spec_spawn_requests().len() >= old(self).spec_spawn_requests().len(),
            forall|k: int| 0 <= k < old(self).spec_spawn_requests().len() ==> #[trigger] final(self).spec_spawn_requests()[k]
                == old(self).spec_spawn_requests()[k],
            r is Ok ==> final(self).spec_spawn_requests().len() == old(self).spec_spawn_requests().len() + old(self).spec_launch_initial().len(),
            r is Ok ==> forall|j: int| 0 <= j < old(self).spec_launch_initial().len() ==> #[trigger] final(self).spec_spawn_requests()[
                old(self).spec_spawn_requests().len() + j] == (
                final(self).spec_names()[old(self).spec_launch_initial()[j].name@],
                command_named(old(self).spec_commands(), old(self).spec_launch_initial()[j].command@).command,
            ),
            final(self).inv(),
            final(self).spec_launch_initial().len() == 0,
            final(self).spec_core_name() == old(self).spec_core_name(),
            final(self).spec_commands() == old(self).spec_commands(),
            final(self).spec_state() == old(self).spec_state(),
            forall|x: NodeId| #[trigger] old(self).spec_nodes().contains_key(x) ==> final(self).spec_nodes().contains_key(x),
            (exists|j: int| 0 <= j < old(self).spec_launch_initial().len()
                && !has_command(old(self).spec_commands(), (#[trigger] old(self).spec_launch_initial()[j]).command@)) ==> r is Err,
            r is Ok ==> forall|j: int| 0 <= j < old(self).spec_launch_initial().len() ==> {
                let init = #[trigger] old(self).spec_launch_initial()[j];
                &&& final(self).spec_names().contains_key(init.name@)
                &&& final(self).spec_nodes().contains_key(final(self).spec_names()[init.name@])
                &&& final(self).spec_nodes()[final(self).spec_names()[init.name@]].launched_by is None
                &&& final(self).spec_nodes()[final(self).spec_names()[init.name@]].weak == init.weak
                &&& final(self).spec_nodes()[final(self).spec_names()[init.name@]].requires_registration == init.requires_registration
                &&& exists|k: int| old(self).spec_outbox().len() <= k < final(self).spec_outbox().len() && init_notice(
                    #[trigger] final(self).spec_outbox()[k], final(self).spec_names()[init.name@], old(self).spec_core_name(), init.name@)
            },
    {
        let mut inits: Vec<InitialLaunch> = Vec::new();
        std::mem::swap(&mut inits, &mut self.launch_initial);
        let ghost all = inits@;
        match self.tick() {
            Some(ts) => self.publish_event(Event { timestamp: ts, kind: EventKind::Reset }),
            None => return Err(CoreError::ClockExhausted),
        }
        let n = inits.len();
        let mut i: usize = 0;
        while i < n
            invariant
                self.inv(),
                self.launch_initial@.len() == 0,
                self.core_name == old(self).core_name,
                self.commands == old(self).commands,
                self.state == old(self).state,
                inits@ == all,
                all == old(self).launch_initial@,
                n == all.len(),
                0 <= i <= n,
                forall|x: NodeId| #[trigger] old(self).nodes.nodes().contains_key(x) ==> self.nodes.nodes().contains_key(x),
                forall|j: int| 0 <= j < i ==> has_command(self.commands@, (#[trigger] all[j]).command@),
                forall|j: int| 0 <= j < i ==> {
                    let init = #[trigger] all[j];
                    &&& self.nodes.names().contains_key(init.name@)
                    &&& self.nodes.nodes().contains_key(self.nodes.names()[init.name@])
                    &&& self.nodes.nodes()[self.nodes.names()[init.name@]].launched_by is None
                    &&& self.nodes.nodes()[self.nodes.names()[init.name@]].weak == init.weak
                    &&& self.nodes.nodes()[self.nodes.names()[init.name@]].requires_registration == init.requires_registration
                    &&& exists|k: int| old(self).outbox@.len() <= k < self.outbox@.len() && init_notice(
                        #[trigger] self.outbox@[k], self.nodes.names()[init.name@], old(self).core_name@, init.name@)
                },
                forall|k: int| 0 <= k < old(self).outbox@.len() ==> #[trigger] self.outbox@[k] == old(self).outbox@[k],
                self.outbox@.len() >= old(self).outbox@.len(),
                self.spawn_requests@.len() == old(self).spawn_requests@.len() + i,
                forall|k: int| 0 <= k < old(self).spawn_requests@.len() ==> #[trigger] self.spawn_requests@[k] == old(self).spawn_requests@[k],
                forall|j: int| 0 <= j < i ==> #[trigger] self.spawn_requests@[old(self).spawn_requests@.len() + j] == (
                    self.nodes.names()[all[j].name@],
                    command_named(old(self).commands@, all[j].command@).command,
                ),
                old(self).timestamp_source.next_logical() <= self.timestamp_source.next_logical(),
                self.timestamp_source.next_logical() <= old(self).timestamp_source.next_logical() + 1 + 4 * i,
                self.next_node_id.0 <= old(self).next_node_id.0 + i,
                forall|k: int| old(self).spawn_requests@.len() <= k < self.spawn_requests@.len() ==> (#[trigger] self.spawn_requests@[k]).1
                    == command_named(old(self).commands@, all[k - old(self).spawn_requests@.len()].command@).command,
                forall|x: Seq<char>| #[trigger] self.nodes.names().contains_key(x) ==> old(self).nodes.names().contains_key(x)
                    || exists|j: int| 0 <= j < i && (#[trigger] all[j]).name@ == x,
            decreases n - i,
        {
            let ghost before = *self;
            let init = &inits[i];
            let launched_id = self.launch(
                init.command.as_str(),
                None,
                init.requires_registration,
                false,
                init.weak,
                init.name.clone(),
                spawner,
            );
            let id = match launched_id {
                Ok(id) => id,
                Err(e) => {
                    proof {
                        let iw = i as int;
                        assert(all[iw] == *init);
                        if e is DuplicateNodeName {
                            let nm = e->DuplicateNodeName_name;
                            assert(before.nodes.names().contains_key(all[iw].name@));
                            if !old(self).nodes.names().contains_key(nm@) {
                                let j = choose|j: int| 0 <= j < iw && (#[trigger] all[j]).name@ == nm@;
                            }
                        }
                        if e is ClockExhausted {
                            assert(before.next_node_id.0 == usize::MAX);
                        }
                        assert forall|k: int| old(self).spawn_requests@.len() <= k < self.spawn_requests@.len() implies (
                            #[trigger] self.spawn_requests@[k]).1 == command_named(old(self).commands@,
                            all[k - old(self).spawn_requests@.len()].command@).command by {
                            if k < before.spawn_requests@.len() {
                                assert(self.spawn_requests@[k] == before.spawn_requests@[k]);
                            }
                        }
                    }
                    return Err(e);
                },
            };
            let ghost launched = *self;
            proof {
                self.nodes.lemma_wf_facts();
                before.nodes.lemma_wf_facts();
                assert forall|x: NodeId| #[trigger] old(self).nodes.nodes().contains_key(x) implies self.nodes.nodes().contains_key(x) by {
                    assert(before.nodes.nodes().contains_key(x));
                }
            }
            let node = self.nodes.get(id).unwrap();
            let commandline = node.commandline();
            let name = node.name.clone();
            let payload = Payload::Init {
                name: name.clone(),
                core_name: self.core_name.clone(),
                core_version: version::current(),
            };
            let m = Message::new(self.core_name.as_str(), name.as_str(), payload);
            match self.dispatch_from_core(m) {
                Ok(()) => {},
                Err(e) => {
                    proof {
                        let iw = i as int;
                        assert(launched.nodes.names().contains_key(all[iw].name@));
                    }
                    return Err(e);
                },
            }
            let ghost dispatched = *self;
            let ghost at = self.outbox@.len() - 1;
            proof {
                assert(init_notice(self.outbox@[at], id, old(self).core_name@, all[i as int].name@));
            }
            match self.tick() {
                Some(ts) => self.publish_event(Event { timestamp: ts, kind: EventKind::NodeLaunched { name, commandline } }),
                None => return Err(CoreError::ClockExhausted),
            }
            proof {
                assert(self.nodes == launched.nodes);
                assert forall|k: int| 0 <= k < before.outbox@.len() implies #[trigger] self.outbox@[k] == before.outbox@[k] by {
                    assert(dispatched.outbox@[k] == before.outbox@[k]);
                }
                assert(self.outbox@[at] == dispatched.outbox@[at]);
                assert forall|j: int| 0 <= j < i + 1 implies {
                    let init = #[trigger] all[j];
                    &&& self.nodes.names().contains_key(init.name@)
                    &&& self.nodes.nodes().contains_key(self.nodes.names()[init.name@])
                    &&& self.nodes.nodes()[self.nodes.names()[init.name@]].launched_by is None
                    &&& self.nodes.nodes()[self.nodes.names()[init.name@]].weak == init.weak
                    &&& self.nodes.nodes()[self.nodes.names()[init.name@]].requires_registration == init.requires_registration
                    &&& exists|k: int| old(self).outbox@.len() <= k < self.outbox@.len() && init_notice(
                        #[trigger] self.outbox@[k], self.nodes.names()[init.name@], old(self).core_name@, init.name@)
                } by {
                    let init = all[j];
                    if j < i {
                        assert(before.nodes.names().contains_key(init.name@));
                        assert(init.name@ != all[i as int].name@);
                        let k = choose|k: int| old(self).outbox@.len() <= k < before.outbox@.len() && init_notice(
                            #[trigger] before.outbox@[k], before.nodes.names()[init.name@], old(self).core_name@, init.name@);
                        assert(self.outbox@[k] == before.outbox@[k]);
                    } else {
                        assert(self.nodes.names()[init.name@] == id);
                        assert(init_notice(self.outbox@[at], self.nodes.names()[init.name@], old(self).core_name@, init.name@));
                    }
                }
                assert forall|j: int| 0 <= j < i + 1 implies #[trigger] self.spawn_requests@[old(self).spawn_requests@.len() + j] == (
                    self.nodes.names()[all[j].name@],
                    command_named(old(self).commands@, all[j].command@).command,
                ) by {
                    if j < i {
                        assert(before.nodes.names().contains_key(all[j].name@));
                        assert(all[j].name@ != all[i as int].name@);
                        assert(self.spawn_requests@[old(self).spawn_requests@.len() + j] == before.spawn_requests@[old(self).spawn_requests@.len() + j]);
                    }
                }
                assert forall|j: int| 0 <= j < i + 1 implies has_command(self.commands@, (#[trigger] all[j]).command@) by {
                    if j == i {
                        assert(has_command(before.commands@, all[i as int].command@));
                    }
                }
            }
            i = i + 1;
        }
        proof {
            assert forall|j: int| 0 <= j < old(self).spec_launch_initial().len() implies {
                let init = #[trigger] old(self).spec_launch_initial()[j];
                &&& self.spec_names().contains_key(init.name@)
                &&& self.spec_nodes().contains_key(self.spec_names()[init.name@])
                &&& self.spec_nodes()[self.spec_names()[init.name@]].launched_by is None
                &&& self.spec_nodes()[self.spec_names()[init.name@]].weak == init.weak
                &&& self.spec_nodes()[self.spec_names()[init.name@]].requires_registration == init.requires_registration
                &&& exists|k: int| old(self).spec_outbox().len() <= k < self.spec_outbox().len() && init_notice(
                    #[trigger] self.spec_outbox()[k], self.spec_names()[init.name@], old(self).spec_core_name(), init.name@)
            } by {
                let init = all[j];
                let k = choose|k: int| old(self).outbox@.len() <= k < self.outbox@.len() && init_notice(
                    #[trigger] self.outbox@[k], self.nodes.names()[init.name@], old(self).core_name@, init.name@);
                assert(self.spec_outbox()[k] == self.outbox@[k]);
            }
        }
        Ok(())
    }
    /// Returns `true` if some node keeps the core running (is not weak).
    fn has_strong_node(&self) -> (b: bool)
        requires
            self.inv(),
        ensures
            b == exists|x: NodeId| #[trigger] self.nodes.nodes().contains_key(x) && !self.nodes.nodes()[x].weak,
    {
        let all = self.nodes.node_ids();
        let n = all.len();
        let mut i: usize = 0;
        while i < n
            invariant
                self.inv(),
                n == all@.len(),
                0 <= i <= n,
                forall|id: NodeId| #[trigger] self.nodes.nodes().contains_key(id) <==> all@.contains(id),
                forall|k: int| 0 <= k < i ==> self.nodes.nodes()[#[trigger] all@[k]].weak,
            decreases n - i,
        {
            let id = all[i];
            assert(all@.contains(id));
            if !self.nodes.get(id).unwrap().weak {
                return true;
            }
            i = i + 1;
        }
        proof {
            assert forall|x: NodeId| #[trigger] self.nodes.nodes().contains_key(x) implies self.nodes.nodes()[x].weak by {
                let k = choose|k: int| 0 <= k < n && all@[k] == x;
            }
        }
        false
    }

    /// The check at the start of each round of the driver's loop: once no node that
    /// keeps the core running is left and no message is in transit, every remaining
    /// (weak) node is asked to shut down. Returns `true` while nodes are left.
    pub fn check_running(&mut self) -> (running: bool)
        requires
            old(self).inv(),
        ensures
            !(exists|x: NodeId| #[trigger] old(self).spec_nodes().contains_key(x) && !old(self).spec_nodes()[x].weak)
                && old(self).spec_network().len() == 0 ==> ({
                let d = old(self).spec_now().saturating_add(SHUTDOWN_TIMEOUT_MILLIS);
                let at = count_not_after(old(self).spec_timers(), d) as int;
                &&& final(self).spec_timers() == old(self).spec_timers().insert(at, final(self).spec_timers()[at])
                &&& final(self).spec_timers()[at].deadline == d
                &&& final(self).spec_timers()[at].kind matches TimerKind::ShutdownTimeout { node_ids }
                &&& forall|x: NodeId| #[trigger] old(self).spec_nodes().contains_key(x) ==> node_ids@.contains(x)
            }),
            final(self).inv(),
            running == (old(self).spec_nodes().len() > 0),
            final(self).spec_nodes() == old(self).spec_nodes(),
            final(self).spec_names() == old(self).spec_names(),
            final(self).spec_network() == old(self).spec_network(),
            final(self).spec_state() == old(self).spec_state(),
            forall|i: int| 0 <= i < old(self).spec_outbox().len() ==> #[trigger] final(self).spec_outbox()[i] == old(self).spec_outbox()[i],
            final(self).spec_outbox().len() >= old(self).spec_outbox().len(),
            (exists|x: NodeId| #[trigger] old(self).spec_nodes().contains_key(x) && !old(self).spec_nodes()[x].weak)
                || old(self).spec_network().len() > 0 ==> *final(self) == *old(self),
            !(exists|x: NodeId| #[trigger] old(self).spec_nodes().contains_key(x) && !old(self).spec_nodes()[x].weak)
                && old(self).spec_network().len() == 0 ==> forall|x: NodeId| #[trigger] old(self).spec_nodes().contains_key(x)
                ==> exists|k: int| old(self).spec_outbox().len() <= k < final(self).spec_outbox().len()
                    && #[trigger] final(self).spec_outbox()[k] == (Outgoing { to: x, command: ProcessCommand::Shutdown }),
    {
        if !self.has_strong_node() && self.network.is_empty() {
            let ghost before = *self;
            let count = self.begin_shutdown_timeout(ShutdownSelection::All);
            proof {
                assert forall|x: NodeId| #[trigger] old(self).spec_nodes().contains_key(x) implies exists|k: int|
                    old(self).spec_outbox().len() <= k < self.spec_outbox().len()
                    && #[trigger] self.spec_outbox()[k] == (Outgoing { to: x, command: ProcessCommand::Shutdown }) by {
                    assert(selects(ShutdownSelection::All, old(self).nodes.nodes()[x]));
                    let j = choose|j: int| 0 <= j < count && (#[trigger] self.outbox@[before.outbox@.len() + j]).to == x;
                    let k = before.outbox@.len() + j;
                    assert(self.outbox@[k].command is Shutdown);
                    assert(self.spec_outbox()[k] == self.outbox@[k]);
                }
                let d = old(self).now.saturating_add(SHUTDOWN_TIMEOUT_MILLIS);
                let at = count_not_after(old(self).timer_manager@, d) as int;
                let t = self.timer_manager@[at];
                if let TimerKind::ShutdownTimeout { node_ids } = t.kind {
                    assert forall|x: NodeId| #[trigger] old(self).spec_nodes().contains_key(x) implies node_ids@.contains(x) by {
                        assert(selects(ShutdownSelection::All, old(self).nodes.nodes()[x]));
                        let j = choose|j: int| 0 <= j < count && (#[trigger] self.outbox@[before.outbox@.len() + j]).to == x;
                        assert(node_ids@[j] == x);
                    }
                }
            }
        }
        self.nodes.len() > 0
    }

    /// Carries out a remote command. A restart is carried out by the driver, which
    /// builds a new core: this core is left as it is.
    #[verifier::spinoff_prover]
    pub fn handle_command(&mut self, command: RemoteCommand) -> (r: Result<(), CoreError>)
        requires
            old(self).inv(),
        ensures
            command matches RemoteCommand::Deliver(t) ==> (spec_remove_one(old(self).spec_network(), t as nat).0 matches Some(m)
                ==> (old(self).spec_names().contains_key(m.message.dest@) && old(self).spec_next_logical() < usize::MAX ==> r is Ok)),
            command matches RemoteCommand::Deliver(t) ==> (spec_remove_one(old(self).spec_network(), t as nat).0 matches Some(m)
                ==> final(self).spec_network() == after_delivery(old(self).spec_nodes(), old(self).spec_names(),
                    spec_remove_one(old(self).spec_network(), t as nat).1, m.source)),
            final(self).inv(),
            final(self).spec_core_name() == old(self).spec_core_name(),
            final(self).spec_commands() == old(self).spec_commands(),
            forall|i: int| 0 <= i < old(self).spec_outbox().len() ==> #[trigger] final(self).spec_outbox()[i] == old(self).spec_outbox()[i],
            final(self).spec_outbox().len() >= old(self).spec_outbox().len(),
            command is Break ==> r is Ok && final(self).spec_state() == CoreState::Paused && final(self).spec_network() == old(self).spec_network()
                && final(self).spec_nodes() == old(self).spec_nodes(),
            command is Step ==> r is Ok && final(self).spec_state() == CoreState::Stepping && final(self).spec_network() == old(self).spec_network()
                && final(self).spec_nodes() == old(self).spec_nodes(),
            command is Resume ==> r is Ok && final(self).spec_state() == CoreState::Running && final(self).spec_network() == old(self).spec_network()
                && final(self).spec_nodes() == old(self).spec_nodes(),
            command is Restart ==> r is Ok && *final(self) == *old(self),
            command matches RemoteCommand::Drop(t) ==> final(self).spec_network() == spec_remove_one(old(self).spec_network(), t as nat).1
                && final(self).spec_nodes() == old(self).spec_nodes() && final(self).spec_state() == old(self).spec_state()
                && (r is Ok <==> old(self).spec_next_logical() < usize::MAX),
            command matches RemoteCommand::Deliver(t) ==> final(self).spec_state() == old(self).spec_state() && ({
                &&& !holds_time(old(self).spec_network(), t as nat) ==> *final(self) == *old(self) && r is Ok
                &&& spec_remove_one(old(self).spec_network(), t as nat).0 matches Some(m) ==> {
                    &&& !old(self).spec_names().contains_key(m.message.dest@) ==> (r matches Err(
                        CoreError::DispatchError { name, message: e, kind: DispatchErrorKind::DestinationUnknown },
                    ) && name@ == m.message.src@ && e == m.message)
                    &&& old(self).spec_names().contains_key(m.message.dest@) && old(self).spec_next_logical() < usize::MAX
                        ==> exists|k: int| old(self).spec_outbox().len() <= k < final(self).spec_outbox().len()
                        && #[trigger] final(self).spec_outbox()[k] == (Outgoing {
                            to: old(self).spec_names()[m.message.dest@],
                            command: ProcessCommand::Deliver(m.message),
                        })
                }
            }),
            command is Shutdown ==> r is Ok && final(self).spec_network() == old(self).spec_network()
                && final(self).spec_nodes() == old(self).spec_nodes() && final(self).spec_state() == old(self).spec_state()
                && forall|x: NodeId| #[trigger] old(self).spec_nodes().contains_key(x) ==> exists|k: int|
                    old(self).spec_outbox().len() <= k < final(self).spec_outbox().len()
                    && #[trigger] final(self).spec_outbox()[k] == (Outgoing { to: x, command: ProcessCommand::Shutdown }),
    {
        match command {
            RemoteCommand::Break => {
                self.state = CoreState::Paused;
                Ok(())
            },
            RemoteCommand::Step => {
                self.state = CoreState::Stepping;
                Ok(())
            },
            RemoteCommand::Resume => {
                self.state = CoreState::Running;
                Ok(())
            },
            RemoteCommand::Deliver(t) => {
                let ghost before = *self;
                let r = self.deliver_by_timestamp(t);
                proof {
                    if let Some(m) = spec_remove_one(old(self).spec_network(), t as nat).0 {
                        if old(self).spec_names().contains_key(m.message.dest@) && old(self).spec_next_logical() < usize::MAX {
                            let k = choose|k: int| old(self).outbox@.len() <= k < self.outbox@.len() && #[trigger] self.outbox@[k] == (
                                Outgoing { to: old(self).nodes.names()[m.message.dest@], command: ProcessCommand::Deliver(m.message) });
                            assert(self.spec_outbox()[k] == self.outbox@[k]);
                        }
                    }
                }
                r
            },
            RemoteCommand::Drop(t) => self.drop_by_timestamp(t),
            RemoteCommand::Restart { .. } => Ok(()),
            RemoteCommand::Shutdown => {
                let ghost before = *self;
                let count = self.begin_shutdown_timeout(ShutdownSelection::All);
                proof {
                    assert forall|x: NodeId| #[trigger] old(self).spec_nodes().contains_key(x) implies exists|k: int|
                        old(self).spec_outbox().len() <= k < self.spec_outbox().len()
                        && #[trigger] self.spec_outbox()[k] == (Outgoing { to: x, command: ProcessCommand::Shutdown }) by {
                        assert(selects(ShutdownSelection::All, old(self).nodes.nodes()[x]));
                        let j = choose|j: int| 0 <= j < count && (#[trigger] self.outbox@[before.outbox@.len() + j]).to == x;
                        let k = before.outbox@.len() + j;
                        assert(self.outbox@[k].command is Shutdown);
                        assert(self.spec_outbox()[k] == self.outbox@[k]);
                    }
                }
                Ok(())
            },
        }
    }
    /// What every state of the core keeps, stated over its views: every name refers to
    /// a node, and every node is registered under its own name; the messages in transit
    /// are ordered by the time they were sent, all before the next timestamp, and a
    /// message from a node carries one of that node's names as its source; every
    /// monitoring session belongs to a name and every subscriber is a node.
    pub proof fn lemma_state_facts(self)
        requires
            self.inv(),
        ensures
            forall|s: Seq<char>| #[trigger] self.spec_names().contains_key(s) ==> self.spec_nodes().contains_key(self.spec_names()[s]),
            forall|id: NodeId| #[trigger] self.spec_nodes().contains_key(id) ==> self.spec_nodes()[id].id == id
                && refers_to(self.spec_names(), self.spec_nodes()[id].name@, id),
            sorted_by_time(self.spec_network()),
            forall|i: int| 0 <= i < self.spec_network().len() ==> ts_of(#[trigger] self.spec_network()[i]) < self.spec_next_logical(),
            forall|i: int| 0 <= i < self.spec_network().len() ==> match (#[trigger] self.spec_network()[i]).source {
                Some(id) => refers_to(self.spec_names(), self.spec_network()[i].message.src@, id),
                None => true,
            },
            forall|k: int| 0 <= k < self.spec_sessions().len() ==> self.spec_names().contains_key((#[trigger] self.spec_sessions()[k]).source@),
            forall|k: int| 0 <= k < self.spec_subscribers().len() ==> self.spec_nodes().contains_key(#[trigger] self.spec_subscribers()[k]),
    {
        self.nodes.lemma_wf_facts();
    }

    /// The message that is delivered next is the one that was sent first: no message in
    /// transit was sent before the first one.
    pub proof fn lemma_next_delivery_is_oldest(self)
        requires
            self.inv(),
            self.spec_network().len() > 0,
        ensures
            forall|i: int| 0 <= i < self.spec_network().len() ==> ts_of(self.spec_network()[0]) <= ts_of(#[trigger] self.spec_network()[i]),
    {
        assert forall|i: int| 0 <= i < self.spec_network().len() implies ts_of(self.spec_network()[0]) <= ts_of(#[trigger] self.spec_network()[i]) by {
            if i > 0 {
                assert(ts_of(self.network@[0]) < ts_of(self.network@[i]));
            }
        }
    }
}

} // verus!
