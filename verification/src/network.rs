//! Manages [`Message`]s in transit.
//!
//! Every message of the simulation first enters the network (when it is sent) and
//! later leaves it (when it is delivered or dropped). The [`Network`] holds the
//! messages that are in transit, ordered by the logical time at which they were sent.

use std::collections::VecDeque;
use vstd::prelude::*;

use crate::message::Message;
use crate::node::NodeId;
use crate::timestamp::Timestamp;

verus! {

/// Picks a number below `n` at random.
///
/// Calls `rand::random_range(0..n)`, which returns a value of the range and panics
/// on an empty range; the value itself is left to chance.
#[verifier::external_body]
fn random_below(n: usize) -> (r: usize)
    requires
        n > 0,
    ensures
        r < n,
{
    rand::random_range(0..n)
}

/// Describes the order in which messages are removed from the network to be delivered.
#[derive(Clone, Copy, PartialEq, Eq, Structural, Debug)]
pub enum NetworkOrder {
    /// always remove messages in the order they were put in (FIFO)
    Fifo,
    /// remove messages in random order, but keep the FIFO order per channel (a pair of
    /// source and destination)
    RandomFifoChannels,
}

/// Request of a delivery notice for a message.
#[derive(Clone, Copy, PartialEq, Eq, Structural, Debug)]
pub enum DeliveryNotice {
    /// no delivery notice was requested
    NotRequested,
    /// a delivery notice was requested, and the reply should contain the given id
    WithReplyId(Option<usize>),
}

/// A single message that is in transit, with the time it was sent and its sender.
pub struct MessageInTransit {
    /// timestamp when this message was sent
    pub sent_timestamp: Timestamp,
    /// the message itself
    pub message: Message,
    /// the id of the node that sent the message, unless the core sent it
    pub source: Option<NodeId>,
    /// whether a delivery notice was requested
    pub delivery_notice: DeliveryNotice,
}

/// The logical send time of a message in transit.
pub open spec fn ts_of(m: MessageInTransit) -> nat {
    m.sent_timestamp.logical as nat
}

/// Messages in `q` are ordered by strictly increasing logical send time.
pub open spec fn sorted_by_time(q: Seq<MessageInTransit>) -> bool {
    forall|i: int, j: int| 0 <= i < j < q.len() ==> #[trigger] ts_of(q[i]) < #[trigger] ts_of(q[j])
}

/// Some message in `q` was sent at logical time `t`.
pub open spec fn holds_time(q: Seq<MessageInTransit>, t: nat) -> bool {
    exists|i: int| 0 <= i < q.len() && ts_of(#[trigger] q[i]) == t
}

/// The number of leading messages of `q` sent before logical time `t`; in a sorted
/// queue this is the place where a message sent at `t` belongs.
pub open spec fn count_before(q: Seq<MessageInTransit>, t: nat) -> nat
    decreases q.len(),
{
    if q.len() == 0 {
        0
    } else if ts_of(q[0]) < t {
        1 + count_before(q.drop_first(), t)
    } else {
        0
    }
}

/// `q` with `m` inserted at its place by logical send time.
pub open spec fn spec_insert(q: Seq<MessageInTransit>, m: MessageInTransit) -> Seq<MessageInTransit> {
    q.insert(count_before(q, ts_of(m)) as int, m)
}

/// The message of `q` sent at logical time `t`, if there is one, and `q` without it.
pub open spec fn spec_remove_one(q: Seq<MessageInTransit>, t: nat) -> (Option<MessageInTransit>, Seq<MessageInTransit>) {
    let i = count_before(q, t) as int;
    if i < q.len() && ts_of(q[i]) == t {
        (Some(q[i]), q.remove(i))
    } else {
        (None, q)
    }
}

/// No message before index `i` of `q` travels on the same channel as `q[i]`: it is the
/// oldest message of its channel.
pub open spec fn is_channel_head(q: Seq<MessageInTransit>, i: int) -> bool {
    &&& 0 <= i < q.len()
    &&& forall|j: int| 0 <= j < i ==> (#[trigger] q[j]).message.channel() != q[i].message.channel()
}

/// Some message of `q` was sent by the node `id`.
pub open spec fn has_message_from(q: Seq<MessageInTransit>, id: NodeId) -> bool {
    exists|i: int| 0 <= i < q.len() && (#[trigger] q[i]).source == Some(id)
}

/// In a sorted queue, an index with only earlier messages before it and only later
/// messages from it on is `count_before`.
proof fn lemma_count_before(q: Seq<MessageInTransit>, t: nat, i: int)
    requires
        0 <= i <= q.len(),
        forall|j: int| 0 <= j < i ==> ts_of(#[trigger] q[j]) < t,
        forall|j: int| i <= j < q.len() ==> ts_of(#[trigger] q[j]) >= t,
    ensures
        count_before(q, t) == i,
    decreases q.len(),
{
    if q.len() > 0 {
        if i > 0 {
            assert(ts_of(q[0]) < t);
            assert forall|j: int| 0 <= j < i - 1 implies ts_of(#[trigger] q.drop_first()[j]) < t by {
                assert(q.drop_first()[j] == q[j + 1]);
            }
            assert forall|j: int| i - 1 <= j < q.drop_first().len() implies ts_of(#[trigger] q.drop_first()[j]) >= t by {
                assert(q.drop_first()[j] == q[j + 1]);
            }
            lemma_count_before(q.drop_first(), t, i - 1);
        } else {
            assert(ts_of(q[0]) >= t);
        }
    }
}

/// `count_before` never exceeds the length of the queue.
proof fn lemma_count_before_bound(q: Seq<MessageInTransit>, t: nat)
    ensures
        count_before(q, t) <= q.len(),
    decreases q.len(),
{
    if q.len() > 0 {
        lemma_count_before_bound(q.drop_first(), t);
    }
}

/// Every message before `count_before` was sent before `t`.
proof fn lemma_count_before_prefix(q: Seq<MessageInTransit>, t: nat, j: int)
    requires
        0 <= j < count_before(q, t),
    ensures
        ts_of(q[j]) < t,
    decreases q.len(),
{
    lemma_count_before_bound(q, t);
    if j > 0 {
        lemma_count_before_prefix(q.drop_first(), t, j - 1);
        assert(q.drop_first()[j - 1] == q[j]);
    }
}

/// In a sorted queue, every message from `count_before` on was sent at `t` or later.
proof fn lemma_count_before_suffix(q: Seq<MessageInTransit>, t: nat, j: int)
    requires
        sorted_by_time(q),
        count_before(q, t) <= j < q.len(),
    ensures
        ts_of(q[j]) >= t,
{
    lemma_count_before_bound(q, t);
    let c = count_before(q, t) as int;
    if c < q.len() {
        lemma_count_before_at(q, t);
        if j > c {
            assert(ts_of(q[c]) < ts_of(q[j]));
        }
    }
}

/// In any queue, the message at `count_before` (if any) was not sent before `t`.
proof fn lemma_count_before_at(q: Seq<MessageInTransit>, t: nat)
    requires
        count_before(q, t) < q.len(),
    ensures
        ts_of(q[count_before(q, t) as int]) >= t,
    decreases q.len(),
{
    if q.len() > 0 && ts_of(q[0]) < t {
        lemma_count_before_at(q.drop_first(), t);
        assert(q.drop_first()[count_before(q.drop_first(), t) as int] == q[count_before(q, t) as int]);
    }
}

/// Inserting a message whose time is not yet taken keeps a queue sorted.
pub proof fn lemma_insert_sorted(q: Seq<MessageInTransit>, m: MessageInTransit)
    requires
        sorted_by_time(q),
        !holds_time(q, ts_of(m)),
    ensures
        sorted_by_time(spec_insert(q, m)),
        spec_insert(q, m).len() == q.len() + 1,
{
    lemma_count_before_bound(q, ts_of(m));
    let c = count_before(q, ts_of(m)) as int;
    let r = spec_insert(q, m);
    assert forall|i: int, j: int| 0 <= i < j < r.len() implies #[trigger] ts_of(r[i]) < #[trigger] ts_of(r[j]) by {
        if j < c {
        } else if j == c {
            lemma_count_before_prefix(q, ts_of(m), i);
        } else if i == c {
            lemma_count_before_suffix(q, ts_of(m), j - 1);
            if ts_of(q[j - 1]) == ts_of(m) {
                assert(holds_time(q, ts_of(m)));
            }
        } else if i < c {
            assert(r[j] == q[j - 1]);
        } else {
            assert(r[j] == q[j - 1] && r[i] == q[i - 1]);
        }
    }
}

/// Taking out the message of a given time keeps a queue sorted.
pub proof fn lemma_remove_one_sorted(q: Seq<MessageInTransit>, t: nat)
    requires
        sorted_by_time(q),
    ensures
        sorted_by_time(spec_remove_one(q, t).1),
{
    let i = count_before(q, t) as int;
    if i < q.len() && ts_of(q[i]) == t {
        let r = q.remove(i);
        assert forall|a: int, b: int| 0 <= a < b < r.len() implies #[trigger] ts_of(r[a]) < #[trigger] ts_of(r[b]) by {
            let a2 = if a < i { a } else { a + 1 };
            let b2 = if b < i { b } else { b + 1 };
            assert(r[a] == q[a2] && r[b] == q[b2]);
            assert(ts_of(q[a2]) < ts_of(q[b2]));
        }
    }
}

/// A message that was inserted into the network is the message that comes back out
/// when the message of its send time is removed, and the network is as before.
pub proof fn lemma_insert_then_remove_one(q: Seq<MessageInTransit>, m: MessageInTransit)
    requires
        sorted_by_time(q),
        !holds_time(q, ts_of(m)),
    ensures
        spec_remove_one(spec_insert(q, m), ts_of(m)) == (Some(m), q),
{
    let t = ts_of(m);
    lemma_count_before_bound(q, t);
    let c = count_before(q, t) as int;
    let r = spec_insert(q, m);
    lemma_insert_sorted(q, m);
    assert forall|j: int| 0 <= j < c implies ts_of(#[trigger] r[j]) < t by {
        lemma_count_before_prefix(q, t, j);
    }
    assert forall|j: int| c <= j < r.len() implies ts_of(#[trigger] r[j]) >= t by {
        if j > c {
            lemma_count_before_suffix(q, t, j - 1);
            assert(r[j] == q[j - 1]);
        }
    }
    lemma_count_before(r, t, c);
    assert(r.remove(c) =~= q);
}

/// A message of a time that is not in the network is not found there.
pub proof fn lemma_remove_absent(q: Seq<MessageInTransit>, t: nat)
    requires
        !holds_time(q, t),
    ensures
        spec_remove_one(q, t) == (None::<MessageInTransit>, q),
{
    let i = count_before(q, t) as int;
    if i < q.len() && ts_of(q[i]) == t {
        assert(holds_time(q, t));
    }
}

/// Every message of `spec_insert(q, m)` is `m` or a message of `q`.
pub proof fn lemma_insert_elements(q: Seq<MessageInTransit>, m: MessageInTransit)
    ensures
        count_before(q, ts_of(m)) <= q.len(),
        forall|i: int| 0 <= i < spec_insert(q, m).len() ==> #[trigger] spec_insert(q, m)[i] == m || q.contains(spec_insert(q, m)[i]),
{
    lemma_count_before_bound(q, ts_of(m));
    let k = count_before(q, ts_of(m)) as int;
    let r = spec_insert(q, m);
    assert forall|i: int| 0 <= i < r.len() implies #[trigger] r[i] == m || q.contains(r[i]) by {
        if i < k {
            assert(r[i] == q[i]);
        } else if i > k {
            assert(r[i] == q[i - 1]);
        }
    }
}

/// `names` holds the source or the destination name of the message `m`.
pub open spec fn touches(names: Seq<String>, m: MessageInTransit) -> bool {
    exists|k: int| 0 <= k < names.len() && ((#[trigger] names[k])@ == m.message.src@ || names[k]@ == m.message.dest@)
}

/// Returns `true` if `names` holds the source or the destination name of `message`.
fn names_touch(names: &Vec<String>, message: &Message) -> (b: bool)
    ensures
        forall|m: MessageInTransit| m.message == *message ==> b == touches(names@, m),
{
    let n = names.len();
    let mut k: usize = 0;
    while k < n
        invariant
            n == names.len(),
            0 <= k <= n,
            forall|j: int| 0 <= j < k ==> (#[trigger] names@[j])@ != message.src@ && names@[j]@ != message.dest@,
        decreases n - k,
    {
        if names[k] == message.src || names[k] == message.dest {
            return true;
        }
        k = k + 1;
    }
    false
}

/// Holds all messages that are in transit, ordered by the time they were sent.
/// Messages can be removed in FIFO order, per-channel FIFO order, or one by one with
/// the logical send time as the key.
pub struct Network {
    messages_in_transit: VecDeque<MessageInTransit>,
    /// describes the order in which messages are removed from the network
    pub network_order: NetworkOrder,
}

impl View for Network {
    type V = Seq<MessageInTransit>;

    closed spec fn view(&self) -> Seq<MessageInTransit> {
        self.messages_in_transit@
    }
}

impl Network {
    /// The order in which messages leave the network.
    pub closed spec fn order(&self) -> NetworkOrder {
        self.network_order
    }

    /// The messages in transit are ordered by strictly increasing send time.
    pub open spec fn wf(&self) -> bool {
        sorted_by_time(self@)
    }

    /// Creates a new, empty network.
    pub fn new(network_order: NetworkOrder) -> (n: Self)
        ensures
            n@ == Seq::<MessageInTransit>::empty(),
            n.order() == network_order,
            n.wf(),
    {
        Self { messages_in_transit: VecDeque::new(), network_order }
    }

    /// Returns `true` if there are no messages in transit.
    pub fn is_empty(&self) -> (b: bool)
        ensures
            b == (self@.len() == 0),
    {
        self.messages_in_transit.len() == 0
    }

    /// The number of messages in transit.
    pub fn len(&self) -> (n: usize)
        ensures
            n == self@.len(),
    {
        self.messages_in_transit.len()
    }

    /// Finds the message sent at `logical_timestamp`: `Ok` with its index if it is in
    /// transit, otherwise `Err` with the index where such a message belongs.
    fn message_by_timestamp(&self, logical_timestamp: usize) -> (r: Result<usize, usize>)
        requires
            self.wf(),
        ensures
            match r {
                Ok(i) => i == count_before(self@, logical_timestamp as nat) && i < self@.len()
                    && ts_of(self@[i as int]) == logical_timestamp,
                Err(i) => i == count_before(self@, logical_timestamp as nat)
                    && !holds_time(self@, logical_timestamp as nat),
            },
    {
        let ghost q = self@;
        let ghost t = logical_timestamp as nat;
        let mut lo: usize = 0;
        let mut hi: usize = self.messages_in_transit.len();
        while lo < hi
            invariant
                q == self@,
                t == logical_timestamp as nat,
                sorted_by_time(q),
                0 <= lo <= hi <= q.len(),
                forall|j: int| 0 <= j < lo ==> ts_of(#[trigger] q[j]) < t,
                forall|j: int| hi <= j < q.len() ==> ts_of(#[trigger] q[j]) >= t,
            decreases hi - lo,
        {
            let mid = lo + (hi - lo) / 2;
            let key = self.messages_in_transit[mid].sent_timestamp.logical;
            assert(ts_of(q[mid as int]) == key);
            if key < logical_timestamp {
                assert forall|j: int| 0 <= j < mid + 1 implies ts_of(#[trigger] q[j]) < t by {
                    assert(ts_of(q[mid as int]) < t);
                    if j < mid {
                        assert(ts_of(q[j]) < ts_of(q[mid as int]));
                    } else {
                        assert(j == mid);
                    }
                }
                lo = mid + 1;
            } else {
                assert forall|j: int| mid <= j < q.len() implies ts_of(#[trigger] q[j]) >= t by {
                    assert(ts_of(q[mid as int]) >= t);
                    if j > mid {
                        assert(ts_of(q[mid as int]) < ts_of(q[j]));
                    }
                }
                hi = mid;
            }
        }
        proof {
            lemma_count_before(q, t, lo as int);
        }
        if lo < self.messages_in_transit.len() && self.messages_in_transit[lo].sent_timestamp.logical == logical_timestamp {
            Ok(lo)
        } else {
            proof {
                assert forall|j: int| 0 <= j < q.len() implies ts_of(#[trigger] q[j]) != t by {
                    if j > lo {
                        assert(ts_of(q[lo as int]) < ts_of(q[j]));
                    }
                }
            }
            Err(lo)
        }
    }

    /// Inserts a new message into the network, at its place by the logical time of
    /// `timestamp`. The time must not be taken by a message in transit already.
    pub fn insert(
        &mut self,
        timestamp: Timestamp,
        source_id: Option<NodeId>,
        message: Message,
        delivery_notice: DeliveryNotice,
    )
        requires
            old(self).wf(),
            !holds_time(old(self)@, timestamp.logical as nat),
        ensures
            final(self).wf(),
            final(self).order() == old(self).order(),
            final(self)@ == spec_insert(
                old(self)@,
                MessageInTransit { sent_timestamp: timestamp, message, source: source_id, delivery_notice },
            ),
    {
        let r = self.message_by_timestamp(timestamp.logical);
        let idx = match r {
            Ok(i) => i,
            Err(i) => i,
        };
        let m = MessageInTransit { sent_timestamp: timestamp, source: source_id, message, delivery_notice };
        proof {
            lemma_count_before_bound(self@, timestamp.logical as nat);
            lemma_insert_sorted(self@, m);
        }
        self.messages_in_transit.insert(idx, m);
    }

    /// Returns `true` if a message sent by the node `source_id` is in transit.
    pub fn has_remaining_messages(&self, source_id: NodeId) -> (b: bool)
        ensures
            b == has_message_from(self@, source_id),
    {
        let n = self.messages_in_transit.len();
        let mut i: usize = 0;
        while i < n
            invariant
                n == self@.len(),
                0 <= i <= n,
                forall|j: int| 0 <= j < i ==> (#[trigger] self@[j]).source != Some(source_id),
            decreases n - i,
        {
            match self.messages_in_transit[i].source {
                Some(id) => {
                    if id == source_id {
                        return true;
                    }
                },
                None => {},
            }
            i = i + 1;
        }
        false
    }

    /// Removes and returns a message according to the network order: the oldest one
    /// for [`NetworkOrder::Fifo`], a random channel's oldest one otherwise.
    pub fn remove_next(&mut self) -> (r: Option<MessageInTransit>)
        requires
            old(self).wf(),
        ensures
            final(self).wf(),
            final(self).order() == old(self).order(),
            r is None <==> old(self)@.len() == 0,
            r is None ==> final(self)@ == old(self)@,
            old(self).order() == NetworkOrder::Fifo ==> (r matches Some(m) ==> m == old(self)@[0]
                && final(self)@ == old(self)@.drop_first()),
            r matches Some(m) ==> exists|i: int| is_channel_head(old(self)@, i) && m == old(self)@[i]
                && final(self)@ == old(self)@.remove(i),
    {
        match self.network_order {
            NetworkOrder::Fifo => {
                let r = self.remove_next_oldest();
                proof {
                    if r is Some {
                        assert(is_channel_head(old(self)@, 0));
                        assert(old(self)@.remove(0) =~= old(self)@.drop_first());
                    }
                }
                r
            },
            NetworkOrder::RandomFifoChannels => self.remove_next_random(),
        }
    }

    /// Removes and returns the oldest message, or `None` if the network is empty.
    pub fn remove_next_oldest(&mut self) -> (r: Option<MessageInTransit>)
        requires
            old(self).wf(),
        ensures
            final(self).wf(),
            final(self).order() == old(self).order(),
            old(self)@.len() == 0 ==> r is None && final(self)@ == old(self)@,
            old(self)@.len() > 0 ==> r == Some(old(self)@[0]) && final(self)@ == old(self)@.drop_first(),
    {
        let r = self.messages_in_transit.pop_front();
        proof {
            if old(self)@.len() > 0 {
                assert forall|i: int, j: int| 0 <= i < j < self@.len() implies #[trigger] ts_of(self@[i]) < #[trigger] ts_of(self@[j]) by {
                    assert(self@[i] == old(self)@[i + 1] && self@[j] == old(self)@[j + 1]);
                }
            }
        }
        r
    }

    /// The indices of the oldest message of each channel, in increasing order.
    pub fn channel_heads(&self) -> (v: Vec<usize>)
        ensures
            forall|k: int| 0 <= k < v.len() ==> is_channel_head(self@, #[trigger] v@[k] as int),
            forall|i: int| is_channel_head(self@, i) ==> v@.contains(i as usize),
            forall|a: int, b: int| 0 <= a < b < v.len() ==> v@[a] < v@[b],
    {
        let n = self.messages_in_transit.len();
        let mut heads: Vec<usize> = Vec::new();
        let mut i: usize = 0;
        while i < n
            invariant
                n == self@.len(),
                0 <= i <= n,
                forall|k: int| 0 <= k < heads.len() ==> is_channel_head(self@, #[trigger] heads@[k] as int),
                forall|k: int| 0 <= k < heads.len() ==> #[trigger] heads@[k] < i,
                forall|x: int| 0 <= x < i && is_channel_head(self@, x) ==> heads@.contains(x as usize),
                forall|a: int, b: int| 0 <= a < b < heads.len() ==> heads@[a] < heads@[b],
            decreases n - i,
        {
            let mut j: usize = 0;
            let mut found = false;
            while j < i && !found
                invariant
                    n == self@.len(),
                    0 <= j <= i < n,
                    !found ==> forall|k: int| 0 <= k < j ==> (#[trigger] self@[k]).message.channel() != self@[i as int].message.channel(),
                    found ==> !is_channel_head(self@, i as int),
                decreases i - j + (if found { 0int } else { 1int }),
            {
                if self.messages_in_transit[j].message.same_channel(&self.messages_in_transit[i].message) {
                    found = true;
                    proof {
                        assert(self@[j as int].message.channel() == self@[i as int].message.channel());
                    }
                } else {
                    j = j + 1;
                }
            }
            let ghost old_heads = heads@;
            if !found {
                heads.push(i);
                proof {
                    assert(heads@[heads.len() - 1] == i);
                    assert forall|x: int| 0 <= x < i + 1 && is_channel_head(self@, x) implies heads@.contains(x as usize) by {
                        if x < i {
                            let k = choose|k: int| 0 <= k < old_heads.len() && old_heads[k] == x as usize;
                            assert(heads@[k] == x as usize);
                        }
                    }
                }
            }
            i = i + 1;
        }
        heads
    }

    /// Removes and returns the oldest message of a channel chosen at random, so that
    /// the messages of each channel leave in the order they were sent. Returns `None`
    /// if the network is empty.
    pub fn remove_next_random(&mut self) -> (r: Option<MessageInTransit>)
        requires
            old(self).wf(),
        ensures
            final(self).wf(),
            final(self).order() == old(self).order(),
            r is None <==> old(self)@.len() == 0,
            r is None ==> final(self)@ == old(self)@,
            r matches Some(m) ==> exists|i: int| is_channel_head(old(self)@, i) && m == old(self)@[i]
                && final(self)@ == old(self)@.remove(i),
    {
        if self.messages_in_transit.len() == 0 {
            return None;
        }
        let candidates = self.channel_heads();
        proof {
            assert(is_channel_head(self@, 0));
        }
        let k = random_below(candidates.len());
        let idx = candidates[k];
        self.remove_at(idx)
    }

    /// Removes the message at index `idx`.
    fn remove_at(&mut self, idx: usize) -> (r: Option<MessageInTransit>)
        requires
            old(self).wf(),
            is_channel_head(old(self)@, idx as int),
        ensures
            final(self).wf(),
            final(self).order() == old(self).order(),
            r == Some(old(self)@[idx as int]),
            final(self)@ == old(self)@.remove(idx as int),
            is_channel_head(old(self)@, idx as int),
    {
        let r = self.messages_in_transit.remove(idx);
        proof {
            let q = old(self)@;
            let s = self@;
            assert forall|a: int, b: int| 0 <= a < b < s.len() implies #[trigger] ts_of(s[a]) < #[trigger] ts_of(s[b]) by {
                let a2 = if a < idx { a } else { a + 1 };
                let b2 = if b < idx { b } else { b + 1 };
                assert(s[a] == q[a2] && s[b] == q[b2]);
            }
        }
        r
    }

    /// Removes and returns the message sent at `logical_timestamp`, or `None` if no
    /// such message is in transit.
    pub fn remove_one(&mut self, logical_timestamp: usize) -> (r: Option<MessageInTransit>)
        requires
            old(self).wf(),
        ensures
            final(self).wf(),
            final(self).order() == old(self).order(),
            (r, final(self)@) == spec_remove_one(old(self)@, logical_timestamp as nat),
            r is None <==> !holds_time(old(self)@, logical_timestamp as nat),
            r is None ==> *final(self) == *old(self),
    {
        proof {
            lemma_remove_one_sorted(self@, logical_timestamp as nat);
        }
        match self.message_by_timestamp(logical_timestamp) {
            Ok(idx) => {
                let r = self.messages_in_transit.remove(idx);
                proof {
                    assert(holds_time(old(self)@, logical_timestamp as nat));
                }
                r
            },
            Err(_) => {
                proof {
                    lemma_remove_absent(self@, logical_timestamp as nat);
                }
                None
            },
        }
    }
    /// Drops every message whose source or destination is one of `names`, keeping the
    /// others in their order.
    pub fn retain_not_touching(&mut self, names: &Vec<String>)
        requires
            old(self).wf(),
        ensures
            final(self).wf(),
            final(self).order() == old(self).order(),
            final(self)@ == old(self)@.filter(|m: MessageInTransit| !touches(names@, m)),
    {
        let ghost q = self@;
        let ghost pred = |m: MessageInTransit| !touches(names@, m);
        let n = self.messages_in_transit.len();
        let mut kept: VecDeque<MessageInTransit> = VecDeque::new();
        let mut i: usize = 0;
        proof {
            reveal_with_fuel(Seq::filter, 1);
            assert(q.take(0) =~= Seq::<MessageInTransit>::empty());
        }
        while i < n
            invariant
                n == q.len(),
                0 <= i <= n,
                self.messages_in_transit@ == q.skip(i as int),
                self.network_order == old(self).network_order,
                kept@ == q.take(i as int).filter(pred),
                pred == (|m: MessageInTransit| !touches(names@, m)),
            decreases n - i,
        {
            let m = self.messages_in_transit.pop_front().unwrap();
            proof {
                assert(m == q[i as int]);
                assert(self.messages_in_transit@ =~= q.skip(i + 1));
                assert(q.take(i + 1).drop_last() =~= q.take(i as int));
                assert(q.take(i + 1).last() == m);
                reveal_with_fuel(Seq::filter, 1);
            }
            if !names_touch(names, &m.message) {
                kept.push_back(m);
            }
            i = i + 1;
        }
        proof {
            assert(q.take(n as int) =~= q);
        }
        self.messages_in_transit = kept;
        proof {
            crate::seq_facts::lemma_filter_subset(q, pred);
            let r = self@;
            assert forall|a: int, b: int| 0 <= a < b < r.len() implies #[trigger] ts_of(r[a]) < #[trigger] ts_of(r[b]) by {
                crate::seq_facts::lemma_filter_order(q, pred, a, b);
                let (ia, ib) = choose|ia: int, ib: int| 0 <= ia < ib < q.len() && q[ia] == r[a] && q[ib] == r[b];
                assert(ts_of(q[ia]) < ts_of(q[ib]));
            }
        }
    }
}

} // verus!
