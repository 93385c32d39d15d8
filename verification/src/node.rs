//! Nodes of the simulation and their ids.

use vstd::prelude::*;

use crate::capabilities::{has_capability, required_capability, Capabilities};
use crate::handle::ExitStatus;

verus! {

/// The id of a node. Ids are handed out by counting up from one.
#[derive(Clone, Copy, PartialEq, Eq, Structural, Debug, Hash)]
pub struct NodeId(pub usize);

impl NodeId {
    /// The first id that is handed out.
    pub fn first() -> (id: NodeId)
        ensures
            id.0 == 1,
    {
        NodeId(1)
    }

    /// Hands out the id that `counter` holds and advances `counter` to the next one.
    pub fn next(counter: &mut NodeId) -> (id: NodeId)
        requires
            old(counter).0 < usize::MAX,
        ensures
            id == *old(counter),
            final(counter).0 == old(counter).0 + 1,
    {
        let id = *counter;
        *counter = NodeId(counter.0 + 1);
        id
    }

    /// Two ids handed out one after the other from the same counter are consecutive:
    /// ids only grow, so none is handed out twice.
    pub proof fn lemma_ids_increase(c0: NodeId, c1: NodeId, c2: NodeId, a: NodeId, b: NodeId)
        requires
            a == c0,
            c1.0 == c0.0 + 1,
            b == c1,
            c2.0 == c1.0 + 1,
        ensures
            b.0 == a.0 + 1,
            b.0 < c2.0,
    {
    }

    /// The number of this id.
    pub fn value(&self) -> (v: usize)
        ensures
            v == self.0,
    {
        self.0
    }
}

} // verus!

verus! {

/// A node of the simulation: its identity, its flags and the process that runs it.
pub struct Node<P> {
    /// the id of this node
    pub id: NodeId,
    /// the node that launched this node with a `launch` message, if any; this node is
    /// shut down when the launching node shuts down
    pub launched_by: Option<NodeId>,
    /// the name of this node
    pub name: String,
    /// the system messages this node may send
    pub capabilities: Capabilities,
    /// the launching node asked for an `exited` message when this node terminates
    pub exited_message_requested: bool,
    /// this node still has to send a `register` message to the core
    pub requires_registration: bool,
    /// this node does not keep the core running if only weak nodes remain
    pub weak: bool,
    /// this node has asked for a reset that has not finished yet
    pub reset_requested: bool,
    /// the full commandline that was used to launch the node's process
    pub commandline: String,
    /// how the node's process ended, as far as the core has been told; the end of a
    /// process is reported after all its other events
    pub exit_status: ExitStatus,
    /// the process that runs this node, as the driver of the core handles it
    pub process: P,
}

impl<P> Node<P> {
    /// Creates a node whose process runs `commandline`; no reset is pending for a new
    /// node, and its process has not ended.
    pub fn new(
        id: NodeId,
        name: String,
        launched_by: Option<NodeId>,
        capabilities: Capabilities,
        exited_message_requested: bool,
        requires_registration: bool,
        weak: bool,
        commandline: String,
        process: P,
    ) -> (n: Self)
        ensures
            n.id == id,
            n.name@ == name@,
            n.launched_by == launched_by,
            n.capabilities == capabilities,
            n.exited_message_requested == exited_message_requested,
            n.requires_registration == requires_registration,
            n.weak == weak,
            !n.reset_requested,
            n.commandline@ == commandline@,
            n.exit_status == ExitStatus::Running,
            n.process == process,
    {
        Node {
            id,
            launched_by,
            name,
            capabilities,
            exited_message_requested,
            requires_registration,
            weak,
            reset_requested: false,
            commandline,
            exit_status: ExitStatus::Running,
            process,
        }
    }

    /// The commandline of the node's process.
    pub fn commandline(&self) -> (s: String)
        ensures
            s@ == self.commandline@,
    {
        self.commandline.clone()
    }

    /// Returns `true` if this node may send a system message of type `message_type`.
    pub fn has_capability(&self, message_type: &str) -> (b: bool)
        ensures
            b == match required_capability(message_type@) {
                Some(c) => self.capabilities.has(c),
                None => false,
            },
    {
        has_capability(self.capabilities, message_type)
    }

    /// Returns `true` if the node's process has ended, aborted or not, and all its events
    /// were handled: the core has been told of its end.
    pub fn has_ended(&self) -> (b: bool)
        ensures
            b == !(self.exit_status is Running),
    {
        !self.exit_status.is_none()
    }

    /// Returns `true` if the node's process has exited by itself and all its events were
    /// handled; then it has an exit code.
    pub fn has_finished(&self) -> (b: bool)
        ensures
            b == self.exit_status is Exited,
            b ==> self.exit_code_of() is Some,
    {
        match self.exit_status {
            ExitStatus::Exited(_) => true,
            _ => false,
        }
    }

    /// The exit code of the node's process, if it exited and was not aborted.
    pub open spec fn exit_code_of(self) -> Option<i32> {
        match self.exit_status {
            ExitStatus::Exited(code) => Some(code),
            _ => None,
        }
    }

    /// The exit code of the node's process, if it exited and was not aborted.
    pub fn exit_code(&self) -> (c: Option<i32>)
        ensures
            c == self.exit_code_of(),
    {
        match self.exit_status {
            ExitStatus::Exited(code) => Some(code),
            _ => None,
        }
    }
}

} // verus!
