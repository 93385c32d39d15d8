//! Monitoring sessions: a node watches the messages between the nodes that match two
//! name patterns.

use vstd::prelude::*;

use crate::message::Message;
use crate::text::str_eq;

verus! {

/// A name pattern matches a name: the pattern `*` matches every name, any other
/// pattern matches the name equal to it.
pub open spec fn pattern_matches(pattern: Seq<char>, name: Seq<char>) -> bool {
    pattern == "*"@ || pattern == name
}

/// A monitoring session of the node named `source`.
pub struct MonitorSession {
    pub source: String,
    pub src_match: String,
    pub dst_match: String,
}

impl MonitorSession {
    /// Starts a session for `source` over the messages from nodes matching `src_match`
    /// to nodes matching `dst_match`.
    pub fn new(source: String, src_match: String, dst_match: String) -> (s: Self)
        ensures
            s.source@ == source@,
            s.src_match@ == src_match@,
            s.dst_match@ == dst_match@,
    {
        Self { source, src_match, dst_match }
    }

    /// The name of the monitoring node.
    pub fn source(&self) -> (s: &str)
        ensures
            s@ == self.source@,
    {
        self.source.as_str()
    }

    /// The session watches `message`.
    pub open spec fn watches(self, message: Message) -> bool {
        pattern_matches(self.src_match@, message.src@) && pattern_matches(self.dst_match@, message.dest@)
    }

    /// Returns `true` if the session watches `message`.
    pub fn matches(&self, message: &Message) -> (b: bool)
        ensures
            b == self.watches(*message),
    {
        let a = str_eq(self.src_match.as_str(), "*") || str_eq(self.src_match.as_str(), message.src.as_str());
        let b = str_eq(self.dst_match.as_str(), "*") || str_eq(self.dst_match.as_str(), message.dest.as_str());
        a && b
    }
}

} // verus!
