//! Unique logical and physical timestamps.
//!
//! A [`Timestamp`] stamps events and messages with a logical time (a counter of the
//! [`TimestampSource`] that made it) and a physical time (milliseconds since the Unix
//! epoch, read from the local clock).

use vstd::prelude::*;

verus! {

/// Reads the local clock.
///
/// Calls `chrono::Local::now()` and converts it with `DateTime::timestamp_millis`.
/// The result depends on the clock, so nothing is stated of it.
#[verifier::external_body]
fn local_now_millis() -> i64 {
    chrono::Local::now().timestamp_millis()
}

/// A logical and physical timestamp. Two timestamps are equal when their logical
/// parts are equal.
#[derive(Clone, Copy, Debug)]
pub struct Timestamp {
    /// the logical timestamp, strictly increasing for each newly created timestamp
    pub logical: usize,
    /// the physical timestamp in milliseconds since the Unix epoch
    pub physical: i64,
}

impl PartialEq for Timestamp {
    fn eq(&self, other: &Self) -> (r: bool) {
        self.logical == other.logical
    }
}

impl vstd::std_specs::cmp::PartialEqSpecImpl for Timestamp {
    open spec fn obeys_eq_spec() -> bool {
        true
    }

    open spec fn eq_spec(&self, other: &Self) -> bool {
        self.logical == other.logical
    }
}

/// A source of timestamps, with a strictly increasing logical clock.
pub struct TimestampSource {
    logical_now: usize,
}

impl TimestampSource {
    /// The logical time that the next timestamp will carry.
    pub closed spec fn next_logical(self) -> nat {
        self.logical_now as nat
    }

    /// Creates a source whose first timestamp has logical time 0.
    pub fn new() -> (s: Self)
        ensures
            s.next_logical() == 0,
    {
        Self { logical_now: 0 }
    }

    /// The logical time that the next timestamp will carry.
    pub fn peek_logical(&self) -> (n: usize)
        ensures
            n == self.next_logical(),
    {
        self.logical_now
    }

    /// Creates a new [`Timestamp`] with a new and unique logical time and the local
    /// physical time.
    pub fn now(&mut self) -> (ts: Timestamp)
        requires
            old(self).next_logical() < usize::MAX,
        ensures
            ts.logical == old(self).next_logical(),
            final(self).next_logical() == old(self).next_logical() + 1,
    {
        let ts = Timestamp { logical: self.logical_now, physical: local_now_millis() };
        self.logical_now = self.logical_now + 1;
        ts
    }
}

/// Two timestamps taken one after the other from the same source are strictly
/// increasing in their logical time.
pub proof fn lemma_timestamps_increase(s0: TimestampSource, s1: TimestampSource, s2: TimestampSource, t1: Timestamp, t2: Timestamp)
    requires
        t1.logical == s0.next_logical(),
        s1.next_logical() == s0.next_logical() + 1,
        t2.logical == s1.next_logical(),
        s2.next_logical() == s1.next_logical() + 1,
    ensures
        t1.logical < t2.logical,
        t2.logical < s2.next_logical(),
{
}

} // verus!
