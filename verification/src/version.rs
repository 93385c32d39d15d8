//! The version of the simulation core.

use vstd::prelude::*;

verus! {

/// The version of this simulation core, as sent to nodes in their `init` message.
pub fn current() -> (v: String)
    ensures
        v@ == "0.1.0"@,
{
    String::from_str("0.1.0")
}

} // verus!
