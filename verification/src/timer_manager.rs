//! Outstanding timers of the simulation core, ordered by their deadline.
//!
//! Deadlines are instants on a monotonic clock, counted in milliseconds from an
//! origin that the driver of the core chooses.

use std::collections::VecDeque;
use vstd::prelude::*;

use crate::node::NodeId;

verus! {

/// A timer that expires at `deadline`.
pub struct Timer {
    pub deadline: u64,
    pub kind: TimerKind,
}

/// What a timer is for.
pub enum TimerKind {
    /// a timer that a node requested with a timer message; it is answered with a
    /// `timer_expired` message to `source`
    TimerService { source: String, msg_id: Option<usize>, name: String },
    /// the node `node_id` must have registered when this timer expires
    ExpectRegistry { node_id: NodeId },
    /// the nodes `node_ids` are terminated when this timer expires, if they have not
    /// shut down by then
    ShutdownTimeout { node_ids: Vec<NodeId> },
}

/// Describes which timers [`TimerManager::retain`] keeps.
pub enum TimerFilter {
    /// keep all timers but the registration timer of the given node
    AllButRegistryOf(NodeId),
    /// keep all timers but the timer-service timers whose name is one of the given names
    AllButServicesNamed(Vec<String>),
}

/// `names` holds a string equal to `s`.
pub open spec fn names_contain(names: Seq<String>, s: Seq<char>) -> bool {
    exists|k: int| 0 <= k < names.len() && (#[trigger] names[k])@ == s
}

/// Whether `filter` keeps the timer `t`.
pub open spec fn keeps(filter: TimerFilter, t: Timer) -> bool {
    match filter {
        TimerFilter::AllButRegistryOf(id) => match t.kind {
            TimerKind::ExpectRegistry { node_id } => node_id != id,
            _ => true,
        },
        TimerFilter::AllButServicesNamed(names) => match t.kind {
            TimerKind::TimerService { name, .. } => !names_contain(names@, name@),
            _ => true,
        },
    }
}

/// Deadlines in `q` do not decrease.
pub open spec fn sorted_by_deadline(q: Seq<Timer>) -> bool {
    forall|i: int, j: int| 0 <= i < j < q.len() ==> (#[trigger] q[i]).deadline <= (#[trigger] q[j]).deadline
}

/// The number of leading timers of `q` that expire at `d` or earlier; in a sorted
/// queue this is the place of a new timer with deadline `d`, after all timers with
/// the same deadline.
pub open spec fn count_not_after(q: Seq<Timer>, d: u64) -> nat
    decreases q.len(),
{
    if q.len() == 0 {
        0
    } else if q[0].deadline <= d {
        1 + count_not_after(q.drop_first(), d)
    } else {
        0
    }
}

proof fn lemma_count_not_after(q: Seq<Timer>, d: u64, i: int)
    requires
        0 <= i <= q.len(),
        forall|j: int| 0 <= j < i ==> (#[trigger] q[j]).deadline <= d,
        forall|j: int| i <= j < q.len() ==> (#[trigger] q[j]).deadline > d,
    ensures
        count_not_after(q, d) == i,
    decreases q.len(),
{
    if q.len() > 0 {
        if i > 0 {
            assert forall|j: int| 0 <= j < i - 1 implies (#[trigger] q.drop_first()[j]).deadline <= d by {
                assert(q.drop_first()[j] == q[j + 1]);
            }
            assert forall|j: int| i - 1 <= j < q.drop_first().len() implies (#[trigger] q.drop_first()[j]).deadline > d by {
                assert(q.drop_first()[j] == q[j + 1]);
            }
            lemma_count_not_after(q.drop_first(), d, i - 1);
        } else {
            assert(q[0].deadline > d);
        }
    }
}

/// The first of the timers ordered by deadline expires no later than any other: the
/// timer that comes out next is an earliest one.
pub proof fn lemma_first_is_earliest(q: Seq<Timer>)
    requires
        sorted_by_deadline(q),
        q.len() > 0,
    ensures
        forall|i: int| 0 <= i < q.len() ==> q[0].deadline <= #[trigger] q[i].deadline,
{
    assert forall|i: int| 0 <= i < q.len() implies q[0].deadline <= #[trigger] q[i].deadline by {
        if i > 0 {
            assert(q[0].deadline <= q[i].deadline);
        }
    }
}

/// Manages outstanding timers, ordered by deadline.
pub struct TimerManager {
    timers: VecDeque<Timer>,
}

impl View for TimerManager {
    type V = Seq<Timer>;

    closed spec fn view(&self) -> Seq<Timer> {
        self.timers@
    }
}

impl TimerManager {
    /// The timers are ordered by deadline.
    pub open spec fn wf(&self) -> bool {
        sorted_by_deadline(self@)
    }

    /// Creates a manager without timers.
    pub fn new() -> (m: Self)
        ensures
            m@ == Seq::<Timer>::empty(),
            m.wf(),
    {
        Self { timers: VecDeque::new() }
    }

    /// The number of outstanding timers.
    pub fn len(&self) -> (n: usize)
        ensures
            n == self@.len(),
    {
        self.timers.len()
    }

    /// Adds a timer that expires at `deadline`. It is placed after every timer that
    /// expires at the same time or earlier, and before every later one.
    pub fn add(&mut self, deadline: u64, kind: TimerKind)
        requires
            old(self).wf(),
        ensures
            final(self).wf(),
            count_not_after(old(self)@, deadline) <= old(self)@.len(),
            final(self)@ == old(self)@.insert(
                count_not_after(old(self)@, deadline) as int,
                Timer { deadline, kind },
            ),
    {
        let ghost q = self@;
        let mut lo: usize = 0;
        let mut hi: usize = self.timers.len();
        while lo < hi
            invariant
                q == self@,
                sorted_by_deadline(q),
                0 <= lo <= hi <= q.len(),
                forall|j: int| 0 <= j < lo ==> (#[trigger] q[j]).deadline <= deadline,
                forall|j: int| hi <= j < q.len() ==> (#[trigger] q[j]).deadline > deadline,
            decreases hi - lo,
        {
            let mid = lo + (hi - lo) / 2;
            if self.timers[mid].deadline <= deadline {
                assert forall|j: int| 0 <= j < mid + 1 implies (#[trigger] q[j]).deadline <= deadline by {
                    if j < mid {
                        assert(q[j].deadline <= q[mid as int].deadline);
                    }
                }
                lo = mid + 1;
            } else {
                assert forall|j: int| mid <= j < q.len() implies (#[trigger] q[j]).deadline > deadline by {
                    if j > mid {
                        assert(q[mid as int].deadline <= q[j].deadline);
                    }
                }
                hi = mid;
            }
        }
        proof {
            lemma_count_not_after(q, deadline, lo as int);
        }
        let t = Timer { deadline, kind };
        self.timers.insert(lo, t);
        proof {
            let r = self@;
            assert forall|a: int, b: int| 0 <= a < b < r.len() implies (#[trigger] r[a]).deadline <= (#[trigger] r[b]).deadline by {
                if b < lo {
                } else if b == lo {
                    assert(r[a] == q[a]);
                } else if a == lo {
                    assert(r[b] == q[b - 1]);
                } else if a < lo {
                    assert(r[b] == q[b - 1] && r[a] == q[a]);
                } else {
                    assert(r[b] == q[b - 1] && r[a] == q[a - 1]);
                }
            }
        }
    }

    /// The deadline of the timer that expires next, if there is one.
    pub fn next_deadline(&self) -> (d: Option<u64>)
        requires
            self.wf(),
        ensures
            self@.len() == 0 ==> d is None,
            self@.len() > 0 ==> d == Some(self@[0].deadline),
            forall|i: int| 0 <= i < self@.len() ==> d.unwrap() <= (#[trigger] self@[i]).deadline,
    {
        if self.timers.len() == 0 {
            None
        } else {
            Some(self.timers[0].deadline)
        }
    }

    /// Removes and returns the timer that expires next, or `None` if there is none.
    pub fn pop_next(&mut self) -> (t: Option<Timer>)
        requires
            old(self).wf(),
        ensures
            final(self).wf(),
            old(self)@.len() == 0 ==> t is None && final(self)@ == old(self)@,
            old(self)@.len() > 0 ==> t == Some(old(self)@[0]) && final(self)@ == old(self)@.drop_first(),
    {
        let t = self.timers.pop_front();
        proof {
            if old(self)@.len() > 0 {
                assert forall|a: int, b: int| 0 <= a < b < self@.len() implies (#[trigger] self@[a]).deadline <= (#[trigger] self@[b]).deadline by {
                    assert(self@[a] == old(self)@[a + 1] && self@[b] == old(self)@[b + 1]);
                }
            }
        }
        t
    }

    /// Removes and returns the next timer if its deadline is `now` or earlier.
    pub fn pop_expired(&mut self, now: u64) -> (t: Option<Timer>)
        requires
            old(self).wf(),
        ensures
            final(self).wf(),
            (old(self)@.len() > 0 && old(self)@[0].deadline <= now) ==> t == Some(old(self)@[0])
                && final(self)@ == old(self)@.drop_first(),
            !(old(self)@.len() > 0 && old(self)@[0].deadline <= now) ==> t is None && *final(self) == *old(self),
    {
        if self.timers.len() > 0 && self.timers[0].deadline <= now {
            self.pop_next()
        } else {
            None
        }
    }

    /// Keeps only the timers that `filter` keeps, in their order.
    pub fn retain(&mut self, filter: &TimerFilter)
        requires
            old(self).wf(),
        ensures
            final(self).wf(),
            final(self)@ == old(self)@.filter(|t: Timer| keeps(*filter, t)),
    {
        let ghost q = self@;
        let ghost pred = |t: Timer| keeps(*filter, t);
        let n = self.timers.len();
        let mut kept: VecDeque<Timer> = VecDeque::new();
        let mut i: usize = 0;
        proof {
            reveal_with_fuel(Seq::filter, 1);
            assert(q.take(0) =~= Seq::<Timer>::empty());
        }
        while i < n
            invariant
                n == q.len(),
                0 <= i <= n,
                self@ == q.skip(i as int),
                kept@ == q.take(i as int).filter(pred),
                pred == (|t: Timer| keeps(*filter, t)),
            decreases n - i,
        {
            let t = self.timers.pop_front().unwrap();
            proof {
                assert(t == q[i as int]);
                assert(self@ =~= q.skip(i + 1));
                assert(q.take(i + 1).drop_last() =~= q.take(i as int));
                assert(q.take(i + 1).last() == t);
                reveal_with_fuel(Seq::filter, 1);
            }
            if Self::keeps_timer(filter, &t) {
                kept.push_back(t);
            }
            i = i + 1;
        }
        proof {
            assert(q.take(n as int) =~= q);
        }
        self.timers = kept;
        proof {
            broadcast use vstd::seq_lib::group_filter_ensures;
            let r = self@;
            lemma_filter_subsequence_sorted(q, pred);
        }
    }

    fn keeps_timer(filter: &TimerFilter, t: &Timer) -> (b: bool)
        ensures
            b == keeps(*filter, *t),
    {
        match filter {
            TimerFilter::AllButRegistryOf(id) => match &t.kind {
                TimerKind::ExpectRegistry { node_id } => *node_id != *id,
                _ => true,
            },
            TimerFilter::AllButServicesNamed(names) => match &t.kind {
                TimerKind::TimerService { name, .. } => {
                    let mut k: usize = 0;
                    let mut found = false;
                    while k < names.len() && !found
                        invariant
                            0 <= k <= names.len(),
                            !found ==> forall|x: int| 0 <= x < k ==> (#[trigger] names@[x])@ != name@,
                            found ==> names_contain(names@, name@),
                        decreases names.len() - k + (if found { 0int } else { 1int }),
                    {
                        if names[k] == *name {
                            found = true;
                        } else {
                            k = k + 1;
                        }
                    }
                    !found
                },
                _ => true,
            },
        }
    }
}

/// Filtering a sorted queue leaves it sorted.
proof fn lemma_filter_subsequence_sorted(q: Seq<Timer>, pred: spec_fn(Timer) -> bool)
    requires
        sorted_by_deadline(q),
    ensures
        sorted_by_deadline(q.filter(pred)),
    decreases q.len(),
{
    reveal_with_fuel(Seq::filter, 1);
    if q.len() > 0 {
        let p = q.drop_last();
        assert forall|i: int, j: int| 0 <= i < j < p.len() implies (#[trigger] p[i]).deadline <= (#[trigger] p[j]).deadline by {
            assert(p[i] == q[i] && p[j] == q[j]);
        }
        lemma_filter_subsequence_sorted(p, pred);
        if pred(q.last()) {
            let f = p.filter(pred);
            broadcast use vstd::seq_lib::group_filter_ensures;
            assert forall|i: int| 0 <= i < f.len() implies (#[trigger] f[i]).deadline <= q.last().deadline by {
                assert(p.filter(pred).contains(f[i]));
                lemma_filter_elem_from(p, pred, i);
            }
            let r = f.push(q.last());
            assert forall|a: int, b: int| 0 <= a < b < r.len() implies (#[trigger] r[a]).deadline <= (#[trigger] r[b]).deadline by {
                if b == r.len() - 1 {
                    assert(r[a] == f[a]);
                } else {
                    assert(r[a] == f[a] && r[b] == f[b]);
                }
            }
        }
    }
}

/// Every element of a filtered sequence is an element of the sequence.
proof fn lemma_filter_elem_from(p: Seq<Timer>, pred: spec_fn(Timer) -> bool, i: int)
    requires
        0 <= i < p.filter(pred).len(),
    ensures
        exists|k: int| 0 <= k < p.len() && p[k] == p.filter(pred)[i],
    decreases p.len(),
{
    reveal_with_fuel(Seq::filter, 1);
    if p.len() > 0 {
        let s = p.drop_last().filter(pred);
        if i < s.len() {
            lemma_filter_elem_from(p.drop_last(), pred, i);
            let k = choose|k: int| 0 <= k < p.drop_last().len() && p.drop_last()[k] == s[i];
            assert(p[k] == p.filter(pred)[i]);
        } else {
            assert(p[p.len() - 1] == p.filter(pred)[i]);
        }
    }
}

} // verus!
