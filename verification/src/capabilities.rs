//! Capabilities that define which node may send which system message.
//!
//! Capabilities are registered together with commands: every node launched from a
//! command inherits the capabilities of that command.

use vstd::prelude::*;

use crate::types;
use crate::text::str_eq;

verus! {

/// What a node is allowed to ask of the simulation core.
#[derive(Clone, Copy, PartialEq, Eq, Structural, Debug, Hash)]
pub enum Capability {
    /// send a `break` message to the core in interactive mode
    Break,
    /// launch new nodes with a `launch` message
    LaunchNodes,
    /// register aliases of oneself with an `alias` message
    LaunchAlias,
    /// reset all nodes and aliases that a node has launched or registered
    Reset,
    /// monitor messages from and to a set of nodes with a `begin_monitor` message
    Monitor,
    /// control the execution of the core with `control` messages
    ControlCore,
    /// subscribe to all events with a `subscribe_events` message
    SubscribeEvents,
}

/// The bit of a capability in a [`Capabilities`] set.
pub open spec fn spec_bit_index(c: Capability) -> u32 {
    match c {
        Capability::Break => 0,
        Capability::LaunchNodes => 1,
        Capability::LaunchAlias => 2,
        Capability::Reset => 3,
        Capability::Monitor => 4,
        Capability::ControlCore => 5,
        Capability::SubscribeEvents => 6,
    }
}

/// Every capability has a bit of its own among the low seven bits: no two capabilities
/// share a bit.
pub proof fn lemma_bits_distinct()
    ensures
        forall|c: Capability| #[trigger] spec_bit_index(c) < 7,
        forall|a: Capability, b: Capability| #[trigger] spec_bit_index(a) == #[trigger] spec_bit_index(b) ==> a == b,
{
}

impl Capability {
    /// The position of this capability's bit.
    pub fn bit_index(self) -> (i: u32)
        ensures
            i == spec_bit_index(self),
            i < 7,
    {
        match self {
            Capability::Break => 0,
            Capability::LaunchNodes => 1,
            Capability::LaunchAlias => 2,
            Capability::Reset => 3,
            Capability::Monitor => 4,
            Capability::ControlCore => 5,
            Capability::SubscribeEvents => 6,
        }
    }

    /// The bit of this capability.
    pub fn bits(self) -> (b: u32)
        ensures
            b == (1u32 << spec_bit_index(self)),
    {
        1u32 << self.bit_index()
    }
}

/// A set of capabilities, held as bits.
#[derive(Clone, Copy, PartialEq, Eq, Structural, Debug, Hash)]
pub struct Capabilities {
    bits: u32,
}

proof fn lemma_bit_or(a: u32, i: u32, j: u32)
    requires
        i < 7,
        j < 7,
    ensures
        ((a | (1u32 << i)) & (1u32 << j) != 0) == (i == j || (a & (1u32 << j) != 0)),
{
    assert(((a | (1u32 << i)) & (1u32 << j) != 0) == (i == j || (a & (1u32 << j) != 0))) by (bit_vector)
        requires
            i < 7,
            j < 7,
    ;
}

proof fn lemma_bit_zero(j: u32)
    requires
        j < 7,
    ensures
        (0u32 & (1u32 << j)) == 0,
{
    assert((0u32 & (1u32 << j)) == 0) by (bit_vector);
}

proof fn lemma_bit_low(a: u32, j: u32)
    requires
        j < 7,
    ensures
        ((a & 127u32) & (1u32 << j) != 0) == (a & (1u32 << j) != 0),
{
    assert(((a & 127u32) & (1u32 << j) != 0) == (a & (1u32 << j) != 0)) by (bit_vector)
        requires
            j < 7,
    ;
}

impl Capabilities {
    /// `c` is in the set.
    pub closed spec fn has(self, c: Capability) -> bool {
        self.bits & (1u32 << spec_bit_index(c)) != 0
    }

    /// The raw bits of the set.
    pub closed spec fn spec_bits(self) -> u32 {
        self.bits
    }

    /// The empty set.
    pub fn empty() -> (s: Capabilities)
        ensures
            forall|c: Capability| !(#[trigger] s.has(c)),
    {
        proof {
            assert forall|c: Capability| !(#[trigger] Capabilities { bits: 0 }.has(c)) by {
                lemma_bit_zero(spec_bit_index(c));
            }
        }
        Capabilities { bits: 0 }
    }

    /// The set that holds `self`'s capabilities and `c`.
    pub fn with(self, c: Capability) -> (s: Capabilities)
        ensures
            forall|d: Capability| #[trigger] s.has(d) == (d == c || self.has(d)),
    {
        let r = Capabilities { bits: self.bits | c.bits() };
        proof {
            assert forall|d: Capability| #[trigger] r.has(d) == (d == c || self.has(d)) by {
                lemma_bit_or(self.bits, spec_bit_index(c), spec_bit_index(d));
            }
        }
        r
    }

    /// Returns `true` if `c` is in the set.
    pub fn contains(&self, c: Capability) -> (b: bool)
        ensures
            b == self.has(c),
    {
        self.bits & c.bits() != 0
    }

    /// The raw bits of the set: bit `i` stands for the capability with bit index `i`.
    pub fn to_bits(&self) -> (b: u32)
        ensures
            b == self.spec_bits(),
            forall|c: Capability| #[trigger] self.has(c) == (b & (1u32 << spec_bit_index(c)) != 0),
    {
        self.bits
    }

    /// The set whose capabilities have their bits set in `bits`; other bits are ignored.
    pub fn from_bits_truncate(bits: u32) -> (s: Capabilities)
        ensures
            forall|c: Capability| #[trigger] s.has(c) == (bits & (1u32 << spec_bit_index(c)) != 0),
    {
        let r = Capabilities { bits: bits & 127u32 };
        proof {
            assert forall|c: Capability| #[trigger] r.has(c) == (bits & (1u32 << spec_bit_index(c)) != 0) by {
                lemma_bit_low(bits, spec_bit_index(c));
            }
        }
        r
    }
}

impl Default for Capabilities {
    /// The default set holds [`Capability::Break`] alone.
    fn default() -> (s: Capabilities)
        ensures
            forall|c: Capability| #[trigger] s.has(c) == (c == Capability::Break),
    {
        Capabilities::empty().with(Capability::Break)
    }
}

/// Reading a set back from its own bits gives the same set: a set `s` with the
/// capabilities whose bits are set in the bits of `c` holds exactly `c`'s capabilities.
pub proof fn lemma_bits_roundtrip(c: Capabilities, s: Capabilities)
    requires
        forall|d: Capability| #[trigger] s.has(d) == (c.spec_bits() & (1u32 << spec_bit_index(d)) != 0),
    ensures
        forall|d: Capability| #[trigger] s.has(d) == c.has(d),
{
}

/// The capability that a system message of type `ty` requires, if it requires one.
pub open spec fn required_capability(ty: Seq<char>) -> Option<Capability> {
    if ty == types::BREAK@ {
        Some(Capability::Break)
    } else if ty == types::LAUNCH@ {
        Some(Capability::LaunchNodes)
    } else if ty == types::ALIAS@ {
        Some(Capability::LaunchAlias)
    } else if ty == types::RESET@ {
        Some(Capability::Reset)
    } else if ty == types::BEGIN_MONITOR@ {
        Some(Capability::Monitor)
    } else if ty == types::CONTROL@ {
        Some(Capability::ControlCore)
    } else if ty == types::SUBSCRIBE_EVENTS@ {
        Some(Capability::SubscribeEvents)
    } else {
        None
    }
}

/// Each system message that needs a capability needs its own: `break` needs the break
/// capability, `launch` launching nodes, `alias` launching aliases, `reset` resets,
/// `begin_monitor` monitoring, `control` controlling the core and `subscribe_events`
/// subscribing; the other messages (timers, logs, registrations, ...) need none; and no
/// two message types need the same capability.
pub proof fn lemma_capability_table()
    ensures
        required_capability("break"@) == Some(Capability::Break),
        required_capability("launch"@) == Some(Capability::LaunchNodes),
        required_capability("alias"@) == Some(Capability::LaunchAlias),
        required_capability("reset"@) == Some(Capability::Reset),
        required_capability("begin_monitor"@) == Some(Capability::Monitor),
        required_capability("control"@) == Some(Capability::ControlCore),
        required_capability("subscribe_events"@) == Some(Capability::SubscribeEvents),
        required_capability("timer"@) is None,
        required_capability("log"@) is None,
        required_capability("register"@) is None,
        required_capability("init"@) is None,
        forall|a: Seq<char>, b: Seq<char>, c: Capability| required_capability(a) == Some(c) && required_capability(b) == Some(c) ==> a == b,
{
    reveal_strlit("break");
    reveal_strlit("launch");
    reveal_strlit("alias");
    reveal_strlit("reset");
    reveal_strlit("begin_monitor");
    reveal_strlit("control");
    reveal_strlit("subscribe_events");
    reveal_strlit("timer");
    reveal_strlit("log");
    reveal_strlit("register");
    reveal_strlit("init");
    assert("launch"@ != "break"@) by { assert("launch"@.len() != "break"@.len()); }
    assert("alias"@ != "break"@) by { assert("alias"@[0] != "break"@[0]); }
    assert("alias"@ != "launch"@) by { assert("alias"@.len() != "launch"@.len()); }
    assert("reset"@ != "break"@) by { assert("reset"@[0] != "break"@[0]); }
    assert("reset"@ != "launch"@) by { assert("reset"@.len() != "launch"@.len()); }
    assert("reset"@ != "alias"@) by { assert("reset"@[0] != "alias"@[0]); }
    assert("begin_monitor"@ != "break"@) by { assert("begin_monitor"@.len() != "break"@.len()); }
    assert("begin_monitor"@ != "launch"@) by { assert("begin_monitor"@.len() != "launch"@.len()); }
    assert("begin_monitor"@ != "alias"@) by { assert("begin_monitor"@.len() != "alias"@.len()); }
    assert("begin_monitor"@ != "reset"@) by { assert("begin_monitor"@.len() != "reset"@.len()); }
    assert("control"@ != "break"@) by { assert("control"@.len() != "break"@.len()); }
    assert("control"@ != "launch"@) by { assert("control"@.len() != "launch"@.len()); }
    assert("control"@ != "alias"@) by { assert("control"@.len() != "alias"@.len()); }
    assert("control"@ != "reset"@) by { assert("control"@.len() != "reset"@.len()); }
    assert("control"@ != "begin_monitor"@) by { assert("control"@.len() != "begin_monitor"@.len()); }
    assert("subscribe_events"@ != "break"@) by { assert("subscribe_events"@.len() != "break"@.len()); }
    assert("subscribe_events"@ != "launch"@) by { assert("subscribe_events"@.len() != "launch"@.len()); }
    assert("subscribe_events"@ != "alias"@) by { assert("subscribe_events"@.len() != "alias"@.len()); }
    assert("subscribe_events"@ != "reset"@) by { assert("subscribe_events"@.len() != "reset"@.len()); }
    assert("subscribe_events"@ != "begin_monitor"@) by { assert("subscribe_events"@.len() != "begin_monitor"@.len()); }
    assert("subscribe_events"@ != "control"@) by { assert("subscribe_events"@.len() != "control"@.len()); }
    assert("timer"@ != "break"@) by { assert("timer"@[0] != "break"@[0]); }
    assert("timer"@ != "launch"@) by { assert("timer"@.len() != "launch"@.len()); }
    assert("timer"@ != "alias"@) by { assert("timer"@[0] != "alias"@[0]); }
    assert("timer"@ != "reset"@) by { assert("timer"@[0] != "reset"@[0]); }
    assert("timer"@ != "begin_monitor"@) by { assert("timer"@.len() != "begin_monitor"@.len()); }
    assert("timer"@ != "control"@) by { assert("timer"@.len() != "control"@.len()); }
    assert("timer"@ != "subscribe_events"@) by { assert("timer"@.len() != "subscribe_events"@.len()); }
    assert("log"@ != "break"@) by { assert("log"@.len() != "break"@.len()); }
    assert("log"@ != "launch"@) by { assert("log"@.len() != "launch"@.len()); }
    assert("log"@ != "alias"@) by { assert("log"@.len() != "alias"@.len()); }
    assert("log"@ != "reset"@) by { assert("log"@.len() != "reset"@.len()); }
    assert("log"@ != "begin_monitor"@) by { assert("log"@.len() != "begin_monitor"@.len()); }
    assert("log"@ != "control"@) by { assert("log"@.len() != "control"@.len()); }
    assert("log"@ != "subscribe_events"@) by { assert("log"@.len() != "subscribe_events"@.len()); }
    assert("register"@ != "break"@) by { assert("register"@.len() != "break"@.len()); }
    assert("register"@ != "launch"@) by { assert("register"@.len() != "launch"@.len()); }
    assert("register"@ != "alias"@) by { assert("register"@.len() != "alias"@.len()); }
    assert("register"@ != "reset"@) by { assert("register"@.len() != "reset"@.len()); }
    assert("register"@ != "begin_monitor"@) by { assert("register"@.len() != "begin_monitor"@.len()); }
    assert("register"@ != "control"@) by { assert("register"@.len() != "control"@.len()); }
    assert("register"@ != "subscribe_events"@) by { assert("register"@.len() != "subscribe_events"@.len()); }
    assert("init"@ != "break"@) by { assert("init"@.len() != "break"@.len()); }
    assert("init"@ != "launch"@) by { assert("init"@.len() != "launch"@.len()); }
    assert("init"@ != "alias"@) by { assert("init"@.len() != "alias"@.len()); }
    assert("init"@ != "reset"@) by { assert("init"@.len() != "reset"@.len()); }
    assert("init"@ != "begin_monitor"@) by { assert("init"@.len() != "begin_monitor"@.len()); }
    assert("init"@ != "control"@) by { assert("init"@.len() != "control"@.len()); }
    assert("init"@ != "subscribe_events"@) by { assert("init"@.len() != "subscribe_events"@.len()); }
}

/// The capability that a system message of type `message_type` requires, if any.
pub fn capability_for(message_type: &str) -> (r: Option<Capability>)
    ensures
        r == required_capability(message_type@),
        message_type@ == "break"@ ==> r == Some(Capability::Break),
        message_type@ == "launch"@ ==> r == Some(Capability::LaunchNodes),
        message_type@ == "alias"@ ==> r == Some(Capability::LaunchAlias),
        message_type@ == "reset"@ ==> r == Some(Capability::Reset),
        message_type@ == "begin_monitor"@ ==> r == Some(Capability::Monitor),
        message_type@ == "control"@ ==> r == Some(Capability::ControlCore),
        message_type@ == "subscribe_events"@ ==> r == Some(Capability::SubscribeEvents),
        message_type@ == "timer"@ || message_type@ == "log"@ || message_type@ == "register"@ ==> r is None,
{
    proof {
        lemma_capability_table();
    }
    if str_eq(message_type, types::BREAK) {
        Some(Capability::Break)
    } else if str_eq(message_type, types::LAUNCH) {
        Some(Capability::LaunchNodes)
    } else if str_eq(message_type, types::ALIAS) {
        Some(Capability::LaunchAlias)
    } else if str_eq(message_type, types::RESET) {
        Some(Capability::Reset)
    } else if str_eq(message_type, types::BEGIN_MONITOR) {
        Some(Capability::Monitor)
    } else if str_eq(message_type, types::CONTROL) {
        Some(Capability::ControlCore)
    } else if str_eq(message_type, types::SUBSCRIBE_EVENTS) {
        Some(Capability::SubscribeEvents)
    } else {
        None
    }
}

/// Returns `true` if `capabilities` allow sending a system message of type
/// `message_type`. Messages of a type that requires no capability are not allowed.
pub fn has_capability(capabilities: Capabilities, message_type: &str) -> (b: bool)
    ensures
        b == match required_capability(message_type@) {
            Some(c) => capabilities.has(c),
            None => false,
        },
{
    match capability_for(message_type) {
        Some(c) => capabilities.contains(c),
        None => false,
    }
}

} // verus!
