//! The registry of the nodes of the simulation and of the names they answer to.
//!
//! Each node is registered under its own name; further names (aliases) can be added
//! for a node. Every name refers to exactly one live node.

use vstd::prelude::*;

use crate::handle::ExitStatus;
use crate::node::{Node, NodeId};
use crate::text::str_eq;

verus! {

/// A node or alias with that name exists already.
#[derive(Clone, Copy, PartialEq, Eq, Structural, Debug)]
pub struct DuplicateName;

/// Some entry of `s` has the name `x`.
pub open spec fn seq_has_name(s: Seq<(String, NodeId)>, x: Seq<char>) -> bool {
    exists|i: int| 0 <= i < s.len() && (#[trigger] s[i]).0@ == x
}

/// The map from names to ids that the entries of `s` describe.
pub open spec fn name_map(s: Seq<(String, NodeId)>) -> Map<Seq<char>, NodeId> {
    Map::new(
        |x: Seq<char>| seq_has_name(s, x),
        |x: Seq<char>| s[choose|i: int| 0 <= i < s.len() && (#[trigger] s[i]).0@ == x].1,
    )
}

/// No two entries of `s` have the same name.
pub open spec fn unique_names(s: Seq<(String, NodeId)>) -> bool {
    forall|i: int, j: int| 0 <= i < j < s.len() ==> (#[trigger] s[i]).0@ != (#[trigger] s[j]).0@
}

/// In a sequence of unique names, the entry at `i` is what the map holds for its name.
proof fn lemma_name_map_at(s: Seq<(String, NodeId)>, i: int)
    requires
        unique_names(s),
        0 <= i < s.len(),
    ensures
        name_map(s).contains_key(s[i].0@),
        name_map(s)[s[i].0@] == s[i].1,
{
    let x = s[i].0@;
    assert(seq_has_name(s, x));
    let c = choose|c: int| 0 <= c < s.len() && (#[trigger] s[c]).0@ == x;
    if c != i {
        if c < i {
            assert(s[c].0@ != s[i].0@);
        } else {
            assert(s[i].0@ != s[c].0@);
        }
    }
}

/// Appending an entry with a new name adds that name to the map.
proof fn lemma_name_map_push(s: Seq<(String, NodeId)>, e: (String, NodeId))
    requires
        unique_names(s),
        !seq_has_name(s, e.0@),
    ensures
        unique_names(s.push(e)),
        name_map(s.push(e)) == name_map(s).insert(e.0@, e.1),
{
    let t = s.push(e);
    assert forall|i: int, j: int| 0 <= i < j < t.len() implies (#[trigger] t[i]).0@ != (#[trigger] t[j]).0@ by {
        if j == s.len() {
            assert(t[i] == s[i]);
        } else {
            assert(t[i] == s[i] && t[j] == s[j]);
        }
    }
    let m = name_map(s).insert(e.0@, e.1);
    assert forall|x: Seq<char>| #[trigger] name_map(t).contains_key(x) == m.contains_key(x) by {
        if seq_has_name(t, x) {
            let i = choose|i: int| 0 <= i < t.len() && (#[trigger] t[i]).0@ == x;
            if i < s.len() {
                assert(t[i] == s[i]);
                assert(seq_has_name(s, x));
            }
        }
        if seq_has_name(s, x) {
            let i = choose|i: int| 0 <= i < s.len() && (#[trigger] s[i]).0@ == x;
            assert(t[i] == s[i]);
        }
        if x == e.0@ {
            assert(t[s.len() as int] == e);
        }
    }
    assert forall|x: Seq<char>| #[trigger] name_map(t).contains_key(x) implies name_map(t)[x] == m[x] by {
        let i = choose|i: int| 0 <= i < t.len() && (#[trigger] t[i]).0@ == x;
        lemma_name_map_at(t, i);
        if i < s.len() {
            assert(t[i] == s[i]);
            lemma_name_map_at(s, i);
        }
    }
    assert(name_map(t) =~= m);
}

/// Whether an entry is kept when the names of `target` are dropped, sparing `except`.
pub open spec fn keeps_entry(e: (String, NodeId), target: NodeId, except: Option<Seq<char>>) -> bool {
    e.1 != target || (except matches Some(x) && e.0@ == x)
}

/// `name_map(t)` for `t` the entries of `s` that are kept.
pub open spec fn kept_names(m: Map<Seq<char>, NodeId>, target: NodeId, except: Option<Seq<char>>) -> Map<Seq<char>, NodeId> {
    Map::new(
        |x: Seq<char>| m.contains_key(x) && (m[x] != target || except == Some(x)),
        |x: Seq<char>| m[x],
    )
}

/// The view of an optional string.
pub open spec fn opt_view(s: Option<&String>) -> Option<Seq<char>> {
    match s {
        Some(x) => Some(x@),
        None => None,
    }
}

/// The entries that `drop_names_of` keeps, as indices into the old entries.
pub open spec fn kept_indices(old_names: Seq<(String, NodeId)>, t: Seq<(String, NodeId)>, kidx: Seq<int>, target: NodeId, ex: Option<Seq<char>>) -> bool {
    &&& kidx.len() == t.len()
    &&& forall|k: int| 0 <= k < kidx.len() ==> 0 <= #[trigger] kidx[k] < old_names.len()
    &&& forall|k: int| 0 <= k < kidx.len() ==> #[trigger] t[k] == old_names[kidx[k]]
    &&& forall|k: int| 0 <= k < kidx.len() ==> keeps_entry(old_names[#[trigger] kidx[k]], target, ex)
    &&& forall|a: int, b: int| 0 <= a < b < kidx.len() ==> #[trigger] kidx[a] < #[trigger] kidx[b]
    &&& forall|j: int| 0 <= j < old_names.len() && keeps_entry(#[trigger] old_names[j], target, ex) ==> kidx.contains(j)
}

/// The names that `drop_names_of` drops, as indices into the old entries.
pub open spec fn dropped_indices(old_names: Seq<(String, NodeId)>, removed: Seq<String>, ridx: Seq<int>, target: NodeId, ex: Option<Seq<char>>) -> bool {
    &&& ridx.len() == removed.len()
    &&& forall|k: int| 0 <= k < ridx.len() ==> 0 <= #[trigger] ridx[k] < old_names.len()
    &&& forall|k: int| 0 <= k < ridx.len() ==> (#[trigger] removed[k])@ == old_names[ridx[k]].0@
    &&& forall|k: int| 0 <= k < ridx.len() ==> !keeps_entry(old_names[#[trigger] ridx[k]], target, ex)
    &&& forall|a: int, b: int| 0 <= a < b < ridx.len() ==> #[trigger] ridx[a] < #[trigger] ridx[b]
    &&& forall|j: int| 0 <= j < old_names.len() && !keeps_entry(#[trigger] old_names[j], target, ex) ==> ridx.contains(j)
}

proof fn lemma_kept_structure(old_names: Seq<(String, NodeId)>, t: Seq<(String, NodeId)>, kidx: Seq<int>, target: NodeId, ex: Option<Seq<char>>)
    requires
        unique_names(old_names),
        kept_indices(old_names, t, kidx, target, ex),
    ensures
        unique_names(t),
        forall|i: int| 0 <= i < t.len() ==> old_names.contains(#[trigger] t[i]),
        forall|i: int| 0 <= i < t.len() ==> keeps_entry(#[trigger] t[i], target, ex),
        forall|j: int| 0 <= j < old_names.len() && keeps_entry(#[trigger] old_names[j], target, ex) ==> t.contains(old_names[j]),
{
    assert forall|a: int, b: int| 0 <= a < b < t.len() implies (#[trigger] t[a]).0@ != (#[trigger] t[b]).0@ by {
        assert(kidx[a] < kidx[b]);
    }
    assert forall|i: int| 0 <= i < t.len() implies old_names.contains(#[trigger] t[i]) && keeps_entry(t[i], target, ex) by {
        assert(t[i] == old_names[kidx[i]]);
    }
    assert forall|j: int| 0 <= j < old_names.len() && keeps_entry(#[trigger] old_names[j], target, ex) implies t.contains(old_names[j]) by {
        let k = choose|k: int| 0 <= k < kidx.len() && kidx[k] == j;
        assert(t[k] == old_names[j]);
    }
}

proof fn lemma_kept_map(old_names: Seq<(String, NodeId)>, t: Seq<(String, NodeId)>, kidx: Seq<int>, target: NodeId, ex: Option<Seq<char>>)
    requires
        unique_names(old_names),
        unique_names(t),
        kept_indices(old_names, t, kidx, target, ex),
    ensures
        name_map(t) == kept_names(name_map(old_names), target, ex),
{
    let km = kept_names(name_map(old_names), target, ex);
    assert forall|x: Seq<char>| #[trigger] name_map(t).contains_key(x) == km.contains_key(x) by {
        if seq_has_name(t, x) {
            let k = choose|k: int| 0 <= k < t.len() && (#[trigger] t[k]).0@ == x;
            lemma_name_map_at(old_names, kidx[k]);
        }
        if km.contains_key(x) {
            let j = choose|j: int| 0 <= j < old_names.len() && (#[trigger] old_names[j]).0@ == x;
            lemma_name_map_at(old_names, j);
            let k = choose|k: int| 0 <= k < kidx.len() && kidx[k] == j;
            assert(t[k] == old_names[j]);
            assert(seq_has_name(t, x));
        }
    }
    assert forall|x: Seq<char>| #[trigger] name_map(t).contains_key(x) implies name_map(t)[x] == km[x] by {
        let k = choose|k: int| 0 <= k < t.len() && (#[trigger] t[k]).0@ == x;
        lemma_name_map_at(t, k);
        lemma_name_map_at(old_names, kidx[k]);
    }
    assert(name_map(t) =~= km);
}

proof fn lemma_dropped(old_names: Seq<(String, NodeId)>, removed: Seq<String>, ridx: Seq<int>, target: NodeId, ex: Option<Seq<char>>)
    requires
        unique_names(old_names),
        dropped_indices(old_names, removed, ridx, target, ex),
    ensures
        forall|k: int| 0 <= k < removed.len() ==> name_map(old_names).contains_key((#[trigger] removed[k])@)
            && name_map(old_names)[removed[k]@] == target && ex != Some(removed[k]@),
        forall|x: Seq<char>| #[trigger] name_map(old_names).contains_key(x) && name_map(old_names)[x] == target
            && ex != Some(x) ==> exists|k: int| 0 <= k < removed.len() && (#[trigger] removed[k])@ == x,
        forall|a: int, b: int| 0 <= a < b < removed.len() ==> (#[trigger] removed[a])@ != (#[trigger] removed[b])@,
{
    let om = name_map(old_names);
    assert forall|k: int| 0 <= k < removed.len() implies om.contains_key((#[trigger] removed[k])@)
        && om[removed[k]@] == target && ex != Some(removed[k]@) by {
        lemma_name_map_at(old_names, ridx[k]);
    }
    assert forall|x: Seq<char>| #[trigger] om.contains_key(x) && om[x] == target && ex != Some(x)
        implies exists|k: int| 0 <= k < removed.len() && (#[trigger] removed[k])@ == x by {
        let j = choose|j: int| 0 <= j < old_names.len() && (#[trigger] old_names[j]).0@ == x;
        lemma_name_map_at(old_names, j);
        let k = choose|k: int| 0 <= k < ridx.len() && ridx[k] == j;
        assert(removed[k]@ == x);
    }
    assert forall|a: int, b: int| 0 <= a < b < removed.len() implies (#[trigger] removed[a])@ != (#[trigger] removed[b])@ by {
        assert(ridx[a] < ridx[b]);
        assert(old_names[ridx[a]].0@ != old_names[ridx[b]].0@);
    }
}

/// Manages all nodes of the simulation by id and by name.
pub struct NodeManager<P> {
    by_name: Vec<(String, NodeId)>,
    by_id: Vec<Node<P>>,
}

impl<P> NodeManager<P> {
    /// Some entry of `by_name` has the name `s`.
    closed spec fn has_name(self, s: Seq<char>) -> bool {
        seq_has_name(self.by_name@, s)
    }

    /// Some node has the id `id`.
    closed spec fn has_id(self, id: NodeId) -> bool {
        exists|k: int| 0 <= k < self.by_id@.len() && (#[trigger] self.by_id@[k]).id == id
    }

    /// The names and the ids they refer to.
    pub closed spec fn names(self) -> Map<Seq<char>, NodeId> {
        name_map(self.by_name@)
    }

    /// The nodes by their id.
    pub closed spec fn nodes(self) -> Map<NodeId, Node<P>> {
        Map::new(
            |id: NodeId| self.has_id(id),
            |id: NodeId| self.by_id@[choose|k: int| 0 <= k < self.by_id@.len() && (#[trigger] self.by_id@[k]).id == id],
        )
    }

    /// Names and ids are unique, every name refers to a node and every node is
    /// registered under its own name.
    pub closed spec fn wf(self) -> bool {
        &&& unique_names(self.by_name@)
        &&& forall|i: int, j: int| 0 <= i < j < self.by_id@.len() ==> (#[trigger] self.by_id@[i]).id != (#[trigger] self.by_id@[j]).id
        &&& forall|i: int| 0 <= i < self.by_name@.len() ==> self.has_id((#[trigger] self.by_name@[i]).1)
        &&& forall|k: int| 0 <= k < self.by_id@.len() ==> exists|i: int| 0 <= i < self.by_name@.len()
            && (#[trigger] self.by_name@[i]).0@ == (#[trigger] self.by_id@[k]).name@ && self.by_name@[i].1 == self.by_id@[k].id
    }

    /// The entry at `i` is what `names` maps its name to.
    proof fn lemma_name_at(self, i: int)
        requires
            self.wf(),
            0 <= i < self.by_name@.len(),
        ensures
            self.names().contains_key(self.by_name@[i].0@),
            self.names()[self.by_name@[i].0@] == self.by_name@[i].1,
    {
        lemma_name_map_at(self.by_name@, i);
    }

    /// The node at `k` is what `nodes` maps its id to.
    proof fn lemma_node_at(self, k: int)
        requires
            self.wf(),
            0 <= k < self.by_id@.len(),
        ensures
            self.nodes().contains_key(self.by_id@[k].id),
            self.nodes()[self.by_id@[k].id] == self.by_id@[k],
    {
        let id = self.by_id@[k].id;
        assert(self.has_id(id));
        let c = choose|c: int| 0 <= c < self.by_id@.len() && (#[trigger] self.by_id@[c]).id == id;
        if c != k {
            if c < k {
                assert(self.by_id@[c].id != self.by_id@[k].id);
            } else {
                assert(self.by_id@[k].id != self.by_id@[c].id);
            }
        }
    }

    /// The facts that every well-formed manager keeps: every name refers to a live node,
    /// and every live node is registered under its own name and its own id.
    pub proof fn lemma_wf_facts(self)
        requires
            self.wf(),
        ensures
            forall|s: Seq<char>| #[trigger] self.names().contains_key(s) ==> self.nodes().contains_key(self.names()[s]),
            forall|id: NodeId| #[trigger] self.nodes().contains_key(id) ==> self.nodes()[id].id == id
                && self.names().contains_key(self.nodes()[id].name@) && self.names()[self.nodes()[id].name@] == id,
    {
        assert forall|s: Seq<char>| #[trigger] self.names().contains_key(s) implies self.nodes().contains_key(self.names()[s]) by {
            let i = choose|i: int| 0 <= i < self.by_name@.len() && (#[trigger] self.by_name@[i]).0@ == s;
            self.lemma_name_at(i);
        }
        assert forall|id: NodeId| #[trigger] self.nodes().contains_key(id) implies self.nodes()[id].id == id
            && self.names().contains_key(self.nodes()[id].name@) && self.names()[self.nodes()[id].name@] == id by {
            let k = choose|k: int| 0 <= k < self.by_id@.len() && (#[trigger] self.by_id@[k]).id == id;
            self.lemma_node_at(k);
            let i = choose|i: int| 0 <= i < self.by_name@.len()
                && (#[trigger] self.by_name@[i]).0@ == self.by_id@[k].name@ && self.by_name@[i].1 == self.by_id@[k].id;
            self.lemma_name_at(i);
        }
    }

    /// Adding a node whose id and name are new, and then removing it, gives back the
    /// names and the nodes as they were: the node leaves nothing behind.
    pub proof fn lemma_add_then_remove(self, node: Node<P>)
        requires
            self.wf(),
            !self.nodes().contains_key(node.id),
            !self.names().contains_key(node.name@),
        ensures
            kept_names(self.names().insert(node.name@, node.id), node.id, None) == self.names(),
            self.nodes().insert(node.id, node).remove(node.id) == self.nodes(),
    {
        self.lemma_wf_facts();
        let n = self.names();
        let k = kept_names(n.insert(node.name@, node.id), node.id, None);
        assert forall|x: Seq<char>| #[trigger] k.contains_key(x) <==> n.contains_key(x) by {
            if n.contains_key(x) {
                assert(self.nodes().contains_key(n[x]));
                assert(n[x] != node.id);
            }
        }
        assert(k =~= n);
        assert(self.nodes().insert(node.id, node).remove(node.id) =~= self.nodes());
    }

    /// Creates an empty manager.
    pub fn new() -> (m: Self)
        ensures
            m.wf(),
            m.names() == Map::<Seq<char>, NodeId>::empty(),
            m.nodes() == Map::<NodeId, Node<P>>::empty(),
    {
        let m = Self { by_name: Vec::new(), by_id: Vec::new() };
        assert(m.names() =~= Map::<Seq<char>, NodeId>::empty());
        assert(m.nodes() =~= Map::<NodeId, Node<P>>::empty());
        m
    }

    /// The number of nodes.
    pub fn len(&self) -> (n: usize)
        requires
            self.wf(),
        ensures
            n == self.nodes().len(),
    {
        proof {
            self.lemma_nodes_len();
        }
        self.by_id.len()
    }

    proof fn lemma_nodes_len(self)
        requires
            self.wf(),
        ensures
            self.nodes().dom().finite(),
            self.nodes().len() == self.by_id@.len(),
    {
        let ids = self.by_id@.map_values(|n: Node<P>| n.id);
        assert forall|i: int, j: int| 0 <= i < j < ids.len() implies ids[i] != ids[j] by {
            assert(self.by_id@[i].id != self.by_id@[j].id);
        }
        assert(ids.no_duplicates());
        assert(self.nodes().dom() =~= ids.to_set()) by {
            assert forall|id: NodeId| self.nodes().dom().contains(id) implies ids.to_set().contains(id) by {
                let k = choose|k: int| 0 <= k < self.by_id@.len() && (#[trigger] self.by_id@[k]).id == id;
                assert(ids[k] == id);
            }
            assert forall|id: NodeId| ids.to_set().contains(id) implies self.nodes().dom().contains(id) by {
                let k = choose|k: int| 0 <= k < ids.len() && ids[k] == id;
                assert(self.by_id@[k].id == id);
            }
        }
        ids.unique_seq_to_set();
    }

    /// The index of the entry for `name`, if there is one.
    fn name_index(&self, name: &str) -> (r: Option<usize>)
        requires
            self.wf(),
        ensures
            match r {
                Some(i) => i < self.by_name@.len() && self.by_name@[i as int].0@ == name@,
                None => !self.names().contains_key(name@),
            },
    {
        let n = self.by_name.len();
        let mut i: usize = 0;
        while i < n
            invariant
                n == self.by_name@.len(),
                0 <= i <= n,
                forall|k: int| 0 <= k < i ==> (#[trigger] self.by_name@[k]).0@ != name@,
            decreases n - i,
        {
            if str_eq(self.by_name[i].0.as_str(), name) {
                return Some(i);
            }
            i = i + 1;
        }
        None
    }

    /// The index of the node with id `id`, if there is one.
    fn id_index(&self, id: NodeId) -> (r: Option<usize>)
        requires
            self.wf(),
        ensures
            match r {
                Some(k) => k < self.by_id@.len() && self.by_id@[k as int].id == id,
                None => !self.nodes().contains_key(id),
            },
    {
        let n = self.by_id.len();
        let mut k: usize = 0;
        while k < n
            invariant
                n == self.by_id@.len(),
                0 <= k <= n,
                forall|j: int| 0 <= j < k ==> (#[trigger] self.by_id@[j]).id != id,
            decreases n - k,
        {
            if self.by_id[k].id == id {
                return Some(k);
            }
            k = k + 1;
        }
        None
    }

    /// The id that `name` refers to, if any.
    pub fn lookup(&self, name: &str) -> (r: Option<NodeId>)
        requires
            self.wf(),
        ensures
            r == (if self.names().contains_key(name@) { Some(self.names()[name@]) } else { None::<NodeId> }),
    {
        match self.name_index(name) {
            Some(i) => {
                proof {
                    self.lemma_name_at(i as int);
                }
                Some(self.by_name[i].1)
            },
            None => None,
        }
    }

    /// Returns `true` if `name` refers to the node `node_id`.
    pub fn has_alias(&self, node_id: NodeId, name: &str) -> (b: bool)
        requires
            self.wf(),
        ensures
            b == (self.names().contains_key(name@) && self.names()[name@] == node_id),
    {
        match self.lookup(name) {
            Some(other) => node_id == other,
            None => false,
        }
    }

    /// The node with id `node_id`, if any.
    pub fn get(&self, node_id: NodeId) -> (r: Option<&Node<P>>)
        requires
            self.wf(),
        ensures
            match r {
                Some(n) => self.nodes().contains_key(node_id) && *n == self.nodes()[node_id],
                None => !self.nodes().contains_key(node_id),
            },
    {
        match self.id_index(node_id) {
            Some(k) => {
                proof {
                    self.lemma_node_at(k as int);
                }
                Some(&self.by_id[k])
            },
            None => None,
        }
    }

    /// Drops every name that refers to `target`, except the name `except`. Returns the
    /// dropped names.
    fn drop_names_of(&mut self, target: NodeId, except: Option<&String>) -> (removed: Vec<String>)
        requires
            unique_names(old(self).by_name@),
        ensures
            final(self).by_id@ == old(self).by_id@,
            unique_names(final(self).by_name@),
            forall|i: int| 0 <= i < final(self).by_name@.len() ==> old(self).by_name@.contains(#[trigger] final(self).by_name@[i]),
            forall|i: int| 0 <= i < final(self).by_name@.len() ==> keeps_entry(#[trigger] final(self).by_name@[i], target, opt_view(except)),
            forall|j: int| 0 <= j < old(self).by_name@.len() && keeps_entry(#[trigger] old(self).by_name@[j], target, opt_view(except))
                ==> final(self).by_name@.contains(old(self).by_name@[j]),
            name_map(final(self).by_name@) == kept_names(name_map(old(self).by_name@), target, opt_view(except)),
            forall|k: int| 0 <= k < removed.len() ==> name_map(old(self).by_name@).contains_key((#[trigger] removed@[k])@)
                && name_map(old(self).by_name@)[removed@[k]@] == target && opt_view(except) != Some(removed@[k]@),
            forall|x: Seq<char>| #[trigger] name_map(old(self).by_name@).contains_key(x) && name_map(old(self).by_name@)[x] == target
                && opt_view(except) != Some(x) ==> exists|k: int| 0 <= k < removed.len() && (#[trigger] removed@[k])@ == x,
            forall|a: int, b: int| 0 <= a < b < removed.len() ==> (#[trigger] removed@[a])@ != (#[trigger] removed@[b])@,
    {
        let ghost old_names = self.by_name@;
        let ghost ex = opt_view(except);
        let n = self.by_name.len();
        let mut kept: Vec<(String, NodeId)> = Vec::new();
        let mut removed: Vec<String> = Vec::new();
        let ghost mut kidx: Seq<int> = Seq::empty();
        let ghost mut ridx: Seq<int> = Seq::empty();
        let mut i: usize = 0;
        while i < n
            invariant
                old_names == self.by_name@,
                unique_names(old_names),
                ex == opt_view(except),
                n == old_names.len(),
                0 <= i <= n,
                kidx.len() == kept.len(),
                ridx.len() == removed.len(),
                forall|k: int| 0 <= k < kidx.len() ==> 0 <= #[trigger] kidx[k] < i,
                forall|k: int| 0 <= k < kidx.len() ==> #[trigger] kept@[k] == old_names[kidx[k]],
                forall|k: int| 0 <= k < kidx.len() ==> keeps_entry(old_names[#[trigger] kidx[k]], target, ex),
                forall|a: int, b: int| 0 <= a < b < kidx.len() ==> #[trigger] kidx[a] < #[trigger] kidx[b],
                forall|j: int| 0 <= j < i && keeps_entry(#[trigger] old_names[j], target, ex) ==> kidx.contains(j),
                forall|k: int| 0 <= k < ridx.len() ==> 0 <= #[trigger] ridx[k] < i,
                forall|k: int| 0 <= k < ridx.len() ==> (#[trigger] removed@[k])@ == old_names[ridx[k]].0@,
                forall|k: int| 0 <= k < ridx.len() ==> !keeps_entry(old_names[#[trigger] ridx[k]], target, ex),
                forall|a: int, b: int| 0 <= a < b < ridx.len() ==> #[trigger] ridx[a] < #[trigger] ridx[b],
                forall|j: int| 0 <= j < i && !keeps_entry(#[trigger] old_names[j], target, ex) ==> ridx.contains(j),
            decreases n - i,
        {
            let keep = if self.by_name[i].1 != target {
                true
            } else {
                match except {
                    Some(e) => *e == self.by_name[i].0,
                    None => false,
                }
            };
            assert(keep == keeps_entry(old_names[i as int], target, ex));
            if keep {
                let e = (self.by_name[i].0.clone(), self.by_name[i].1);
                kept.push(e);
                proof {
                    let o = kidx;
                    kidx = kidx.push(i as int);
                    assert(kept@[kept.len() - 1] == old_names[i as int]);
                    assert forall|j: int| 0 <= j < i + 1 && keeps_entry(#[trigger] old_names[j], target, ex) implies kidx.contains(j) by {
                        if j < i {
                            let k = choose|k: int| 0 <= k < o.len() && o[k] == j;
                            assert(kidx[k] == j);
                        } else {
                            assert(kidx[kidx.len() - 1] == j);
                        }
                    }
                    assert forall|j: int| 0 <= j < i + 1 && !keeps_entry(#[trigger] old_names[j], target, ex) implies ridx.contains(j) by {
                        if j < i {
                        }
                    }
                }
            } else {
                removed.push(self.by_name[i].0.clone());
                proof {
                    let o = ridx;
                    ridx = ridx.push(i as int);
                    assert forall|j: int| 0 <= j < i + 1 && !keeps_entry(#[trigger] old_names[j], target, ex) implies ridx.contains(j) by {
                        if j < i {
                            let k = choose|k: int| 0 <= k < o.len() && o[k] == j;
                            assert(ridx[k] == j);
                        } else {
                            assert(ridx[ridx.len() - 1] == j);
                        }
                    }
                    assert forall|j: int| 0 <= j < i + 1 && keeps_entry(#[trigger] old_names[j], target, ex) implies kidx.contains(j) by {
                        if j < i {
                        }
                    }
                }
            }
            i = i + 1;
        }
        self.by_name = kept;
        proof {
            assert(kept_indices(old_names, self.by_name@, kidx, target, ex));
            assert(dropped_indices(old_names, removed@, ridx, target, ex));
            lemma_kept_structure(old_names, self.by_name@, kidx, target, ex);
            lemma_kept_map(old_names, self.by_name@, kidx, target, ex);
            lemma_dropped(old_names, removed@, ridx, target, ex);
        }
        removed
    }

    /// The names that refer to `target`, each once.
    pub fn aliases_of(&self, target: NodeId) -> (v: Vec<String>)
        requires
            self.wf(),
        ensures
            forall|k: int| 0 <= k < v.len() ==> self.names().contains_key((#[trigger] v@[k])@)
                && self.names()[v@[k]@] == target,
            forall|s: Seq<char>| #[trigger] self.names().contains_key(s) && self.names()[s] == target
                ==> exists|k: int| 0 <= k < v.len() && (#[trigger] v@[k])@ == s,
            forall|a: int, b: int| 0 <= a < b < v.len() ==> (#[trigger] v@[a])@ != (#[trigger] v@[b])@,
    {
        let n = self.by_name.len();
        let mut v: Vec<String> = Vec::new();
        let ghost mut idx: Seq<int> = Seq::empty();
        let mut i: usize = 0;
        while i < n
            invariant
                self.wf(),
                n == self.by_name@.len(),
                0 <= i <= n,
                idx.len() == v.len(),
                forall|k: int| 0 <= k < idx.len() ==> 0 <= #[trigger] idx[k] < i,
                forall|k: int| 0 <= k < idx.len() ==> self.by_name@[#[trigger] idx[k]].1 == target,
                forall|k: int| 0 <= k < idx.len() ==> (#[trigger] v@[k])@ == self.by_name@[idx[k]].0@,
                forall|a: int, b: int| 0 <= a < b < idx.len() ==> #[trigger] idx[a] < #[trigger] idx[b],
                forall|j: int| 0 <= j < i && (#[trigger] self.by_name@[j]).1 == target ==> idx.contains(j),
            decreases n - i,
        {
            if self.by_name[i].1 == target {
                let s = self.by_name[i].0.clone();
                v.push(s);
                proof {
                    let old_idx = idx;
                    idx = idx.push(i as int);
                    assert forall|j: int| 0 <= j < i + 1 && (#[trigger] self.by_name@[j]).1 == target implies idx.contains(j) by {
                        if j < i {
                            let k = choose|k: int| 0 <= k < old_idx.len() && old_idx[k] == j;
                            assert(idx[k] == j);
                        } else {
                            assert(idx[idx.len() - 1] == j);
                        }
                    }
                }
            }
            i = i + 1;
        }
        proof {
            assert forall|k: int| 0 <= k < v.len() implies self.names().contains_key((#[trigger] v@[k])@)
                && self.names()[v@[k]@] == target by {
                self.lemma_name_at(idx[k]);
            }
            assert forall|x: Seq<char>| #[trigger] self.names().contains_key(x) && self.names()[x] == target
                implies exists|k: int| 0 <= k < v.len() && (#[trigger] v@[k])@ == x by {
                let j = choose|j: int| 0 <= j < n && (#[trigger] self.by_name@[j]).0@ == x;
                self.lemma_name_at(j);
                let k = choose|k: int| 0 <= k < idx.len() && idx[k] == j;
                assert(v@[k]@ == x);
            }
            assert forall|a: int, b: int| 0 <= a < b < v.len() implies (#[trigger] v@[a])@ != (#[trigger] v@[b])@ by {
                assert(idx[a] < idx[b]);
                assert(self.by_name@[idx[a]].0@ != self.by_name@[idx[b]].0@);
            }
        }
        v
    }
}

impl<P> NodeManager<P> {
    /// Registers `node` under its own name. Fails if a node or alias with that name
    /// exists already. The node's id must not be taken.
    pub fn add(&mut self, node: Node<P>) -> (r: Result<(), DuplicateName>)
        requires
            old(self).wf(),
            !old(self).nodes().contains_key(node.id),
        ensures
            final(self).wf(),
            r is Err <==> old(self).names().contains_key(node.name@),
            r is Err ==> final(self).names() == old(self).names() && final(self).nodes() == old(self).nodes(),
            r is Ok ==> final(self).names() == old(self).names().insert(node.name@, node.id)
                && final(self).nodes() == old(self).nodes().insert(node.id, node),
    {
        if self.name_index(node.name.as_str()).is_some() {
            proof {
                let i = choose|i: int| 0 <= i < self.by_name@.len() && (#[trigger] self.by_name@[i]).0@ == node.name@;
                assert(self.has_name(node.name@));
            }
            return Err(DuplicateName);
        }
        let ghost old_self = *self;
        let name = node.name.clone();
        let id = node.id;
        self.by_name.push((name, id));
        self.by_id.push(node);
        proof {
            let nn = old_self.by_name@.len() as int;
            let nk = old_self.by_id@.len() as int;
            assert(self.by_name@[nn].0@ == node.name@);
            assert(self.by_id@[nk] == node);
            assert forall|i: int| 0 <= i < self.by_name@.len() implies self.has_id((#[trigger] self.by_name@[i]).1) by {
                if i < nn {
                    assert(self.by_name@[i] == old_self.by_name@[i]);
                    let k = choose|k: int| 0 <= k < old_self.by_id@.len() && (#[trigger] old_self.by_id@[k]).id == old_self.by_name@[i].1;
                    assert(self.by_id@[k] == old_self.by_id@[k]);
                } else {
                    assert(self.by_id@[nk].id == id);
                }
            }
            assert forall|k: int| 0 <= k < self.by_id@.len() implies exists|i: int| 0 <= i < self.by_name@.len()
                && (#[trigger] self.by_name@[i]).0@ == (#[trigger] self.by_id@[k]).name@ && self.by_name@[i].1 == self.by_id@[k].id by {
                if k < nk {
                    assert(self.by_id@[k] == old_self.by_id@[k]);
                    let i = choose|i: int| 0 <= i < old_self.by_name@.len()
                        && (#[trigger] old_self.by_name@[i]).0@ == old_self.by_id@[k].name@ && old_self.by_name@[i].1 == old_self.by_id@[k].id;
                    assert(self.by_name@[i] == old_self.by_name@[i]);
                } else {
                    assert(self.by_name@[nn].0@ == self.by_id@[k].name@);
                }
            }
            assert forall|i: int, j: int| 0 <= i < j < self.by_name@.len() implies (#[trigger] self.by_name@[i]).0@ != (#[trigger] self.by_name@[j]).0@ by {
                if j == nn {
                    assert(self.by_name@[i] == old_self.by_name@[i]);
                } else {
                    assert(self.by_name@[i] == old_self.by_name@[i] && self.by_name@[j] == old_self.by_name@[j]);
                }
            }
            assert forall|i: int, j: int| 0 <= i < j < self.by_id@.len() implies (#[trigger] self.by_id@[i]).id != (#[trigger] self.by_id@[j]).id by {
                if j == nk {
                    assert(self.by_id@[i] == old_self.by_id@[i]);
                    assert(old_self.has_id(self.by_id@[i].id));
                } else {
                    assert(self.by_id@[i] == old_self.by_id@[i] && self.by_id@[j] == old_self.by_id@[j]);
                }
            }
            assert(self.wf());
            assert forall|s: Seq<char>| #[trigger] self.names().contains_key(s) == old_self.names().insert(node.name@, id).contains_key(s) by {
                if self.has_name(s) {
                    let i = choose|i: int| 0 <= i < self.by_name@.len() && (#[trigger] self.by_name@[i]).0@ == s;
                    if i < nn {
                        assert(self.by_name@[i] == old_self.by_name@[i]);
                        assert(old_self.has_name(s));
                    }
                }
                if old_self.has_name(s) {
                    let i = choose|i: int| 0 <= i < old_self.by_name@.len() && (#[trigger] old_self.by_name@[i]).0@ == s;
                    assert(self.by_name@[i] == old_self.by_name@[i]);
                    assert(self.has_name(s));
                }
            }
            assert forall|s: Seq<char>| #[trigger] self.names().contains_key(s) implies self.names()[s] == old_self.names().insert(node.name@, id)[s] by {
                let i = choose|i: int| 0 <= i < self.by_name@.len() && (#[trigger] self.by_name@[i]).0@ == s;
                self.lemma_name_at(i);
                if i < nn {
                    assert(self.by_name@[i] == old_self.by_name@[i]);
                    old_self.lemma_name_at(i);
                }
            }
            assert(self.names() =~= old_self.names().insert(node.name@, id));
            assert forall|x: NodeId| #[trigger] self.nodes().contains_key(x) == old_self.nodes().insert(id, node).contains_key(x) by {
                if self.has_id(x) {
                    let k = choose|k: int| 0 <= k < self.by_id@.len() && (#[trigger] self.by_id@[k]).id == x;
                    if k < nk {
                        assert(self.by_id@[k] == old_self.by_id@[k]);
                        assert(old_self.has_id(x));
                    }
                }
                if old_self.has_id(x) {
                    let k = choose|k: int| 0 <= k < old_self.by_id@.len() && (#[trigger] old_self.by_id@[k]).id == x;
                    assert(self.by_id@[k] == old_self.by_id@[k]);
                    assert(self.has_id(x));
                }
            }
            assert forall|x: NodeId| #[trigger] self.nodes().contains_key(x) implies self.nodes()[x] == old_self.nodes().insert(id, node)[x] by {
                let k = choose|k: int| 0 <= k < self.by_id@.len() && (#[trigger] self.by_id@[k]).id == x;
                self.lemma_node_at(k);
                if k < nk {
                    assert(self.by_id@[k] == old_self.by_id@[k]);
                    old_self.lemma_node_at(k);
                }
            }
            assert(self.nodes() =~= old_self.nodes().insert(id, node));
        }
        Ok(())
    }


    /// Adds the alias `name` for the node `for_id`. Returns `Ok(None)` if there is no
    /// such node, and fails if a node or alias with that name exists already.
    pub fn add_alias(&mut self, for_id: NodeId, name: String) -> (r: Result<Option<&Node<P>>, DuplicateName>)
        requires
            old(self).wf(),
        ensures
            final(self).wf(),
            final(self).nodes() == old(self).nodes(),
            !old(self).nodes().contains_key(for_id) ==> r == Ok::<Option<&Node<P>>, DuplicateName>(None)
                && final(self).names() == old(self).names(),
            old(self).nodes().contains_key(for_id) && old(self).names().contains_key(name@) ==> r is Err
                && final(self).names() == old(self).names(),
            old(self).nodes().contains_key(for_id) && !old(self).names().contains_key(name@) ==> (r matches Ok(Some(n))
                && *n == old(self).nodes()[for_id]) && final(self).names() == old(self).names().insert(name@, for_id),
    {
        let k = match self.id_index(for_id) {
            Some(k) => k,
            None => return Ok(None),
        };
        if self.name_index(name.as_str()).is_some() {
            return Err(DuplicateName);
        }
        let ghost old_self = *self;
        proof {
            old_self.lemma_node_at(k as int);
            lemma_name_map_push(old_self.by_name@, (name, for_id));
        }
        self.by_name.push((name, for_id));
        proof {
            let nn = old_self.by_name@.len() as int;
            assert(self.by_name@ == old_self.by_name@.push(self.by_name@[nn]));
            assert forall|i: int| 0 <= i < self.by_name@.len() implies self.has_id((#[trigger] self.by_name@[i]).1) by {
                if i < nn {
                    assert(self.by_name@[i] == old_self.by_name@[i]);
                } else {
                    assert(self.by_id@[k as int].id == for_id);
                }
            }
            assert forall|j: int| 0 <= j < self.by_id@.len() implies exists|i: int| 0 <= i < self.by_name@.len()
                && (#[trigger] self.by_name@[i]).0@ == (#[trigger] self.by_id@[j]).name@ && self.by_name@[i].1 == self.by_id@[j].id by {
                let i = choose|i: int| 0 <= i < old_self.by_name@.len()
                    && (#[trigger] old_self.by_name@[i]).0@ == old_self.by_id@[j].name@ && old_self.by_name@[i].1 == old_self.by_id@[j].id;
                assert(self.by_name@[i] == old_self.by_name@[i]);
            }
        }
        Ok(Some(&self.by_id[k]))
    }

    /// Removes the node `node_id` and every name that refers to it.
    #[verifier::spinoff_prover]
    #[verifier::rlimit(80)]
    pub fn remove(&mut self, node_id: NodeId)
        requires
            old(self).wf(),
        ensures
            final(self).wf(),
            final(self).nodes() == old(self).nodes().remove(node_id),
            final(self).names() == kept_names(old(self).names(), node_id, None),
    {
        let k = match self.id_index(node_id) {
            Some(k) => k,
            None => {
                proof {
                    assert(self.nodes() =~= self.nodes().remove(node_id));
                    self.lemma_wf_facts();
                    assert(self.names() =~= kept_names(self.names(), node_id, None));
                }
                return;
            },
        };
        let ghost old_self = *self;
        let _ = self.by_id.remove(k);
        let _ = self.drop_names_of(node_id, None);
        proof {
            let ob = old_self.by_id@;
            let b = self.by_id@;
            assert(b == ob.remove(k as int));
            assert forall|i: int, j: int| 0 <= i < j < b.len() implies (#[trigger] b[i]).id != (#[trigger] b[j]).id by {
                let i2 = if i < k { i } else { i + 1 };
                let j2 = if j < k { j } else { j + 1 };
                assert(b[i] == ob[i2] && b[j] == ob[j2]);
            }
            assert forall|i: int| 0 <= i < self.by_name@.len() implies self.has_id((#[trigger] self.by_name@[i]).1) by {
                let e = self.by_name@[i];
                assert(old_self.by_name@.contains(e));
                let j = choose|j: int| 0 <= j < old_self.by_name@.len() && old_self.by_name@[j] == e;
                assert(old_self.has_id(old_self.by_name@[j].1));
                let c = choose|c: int| 0 <= c < ob.len() && (#[trigger] ob[c]).id == e.1;
                assert(e.1 != node_id);
                assert(c != k);
                let c2 = if c < k { c } else { c - 1 };
                assert(b[c2] == ob[c]);
            }
            assert forall|j: int| 0 <= j < b.len() implies exists|i: int| 0 <= i < self.by_name@.len()
                && (#[trigger] self.by_name@[i]).0@ == (#[trigger] b[j]).name@ && self.by_name@[i].1 == b[j].id by {
                let j2 = if j < k { j } else { j + 1 };
                assert(b[j] == ob[j2]);
                assert(ob[j2].id != ob[k as int].id);
                let i = choose|i: int| 0 <= i < old_self.by_name@.len()
                    && (#[trigger] old_self.by_name@[i]).0@ == ob[j2].name@ && old_self.by_name@[i].1 == ob[j2].id;
                assert(keeps_entry(old_self.by_name@[i], node_id, None));
                assert(self.by_name@.contains(old_self.by_name@[i]));
                let i3 = choose|i3: int| 0 <= i3 < self.by_name@.len() && self.by_name@[i3] == old_self.by_name@[i];
                assert(self.by_name@[i3].0@ == b[j].name@);
            }
            assert(unique_names(self.by_name@));
            assert(forall|i: int, j: int| 0 <= i < j < self.by_id@.len() ==> (#[trigger] self.by_id@[i]).id != (#[trigger] self.by_id@[j]).id);
            assert(forall|i: int| 0 <= i < self.by_name@.len() ==> self.has_id((#[trigger] self.by_name@[i]).1));
            assert(self.wf());
            assert forall|x: NodeId| #[trigger] self.nodes().contains_key(x) == old_self.nodes().remove(node_id).contains_key(x) by {
                if self.has_id(x) {
                    let c = choose|c: int| 0 <= c < b.len() && (#[trigger] b[c]).id == x;
                    let c2 = if c < k { c } else { c + 1 };
                    assert(b[c] == ob[c2]);
                    assert(old_self.has_id(x));
                    assert(ob[c2].id != ob[k as int].id);
                }
                if old_self.has_id(x) && x != node_id {
                    let c = choose|c: int| 0 <= c < ob.len() && (#[trigger] ob[c]).id == x;
                    assert(c != k);
                    let c2 = if c < k { c } else { c - 1 };
                    assert(b[c2] == ob[c]);
                    assert(self.has_id(x));
                }
            }
            assert forall|x: NodeId| #[trigger] self.nodes().contains_key(x) implies self.nodes()[x] == old_self.nodes()[x] by {
                let c = choose|c: int| 0 <= c < b.len() && (#[trigger] b[c]).id == x;
                self.lemma_node_at(c);
                let c2 = if c < k { c } else { c + 1 };
                assert(b[c] == ob[c2]);
                old_self.lemma_node_at(c2);
            }
            assert(self.nodes() =~= old_self.nodes().remove(node_id));
        }
    }

    /// Removes every alias of the node `node_id`, keeping the node's own name. Returns
    /// the removed aliases; nothing changes if there is no such node.
    pub fn remove_aliases_of(&mut self, node_id: NodeId) -> (removed: Vec<String>)
        requires
            old(self).wf(),
        ensures
            final(self).wf(),
            final(self).nodes() == old(self).nodes(),
            !old(self).nodes().contains_key(node_id) ==> removed.len() == 0 && final(self).names() == old(self).names(),
            old(self).nodes().contains_key(node_id) ==> final(self).names() == kept_names(
                old(self).names(), node_id, Some(old(self).nodes()[node_id].name@)),
            forall|k: int| 0 <= k < removed.len() ==> old(self).names().contains_key((#[trigger] removed@[k])@)
                && old(self).names()[removed@[k]@] == node_id && removed@[k]@ != old(self).nodes()[node_id].name@,
            forall|x: Seq<char>| #[trigger] old(self).names().contains_key(x) && old(self).names()[x] == node_id
                && x != old(self).nodes()[node_id].name@ ==> exists|k: int| 0 <= k < removed.len() && (#[trigger] removed@[k])@ == x,
            forall|a: int, b: int| 0 <= a < b < removed.len() ==> (#[trigger] removed@[a])@ != (#[trigger] removed@[b])@,
    {
        let k = match self.id_index(node_id) {
            Some(k) => k,
            None => {
                return Vec::new();
            },
        };
        let ghost old_self = *self;
        proof {
            old_self.lemma_node_at(k as int);
        }
        let own_name = self.by_id[k].name.clone();
        let removed = self.drop_names_of(node_id, Some(&own_name));
        proof {
            assert forall|i: int| 0 <= i < self.by_name@.len() implies self.has_id((#[trigger] self.by_name@[i]).1) by {
                let e = self.by_name@[i];
                assert(old_self.by_name@.contains(e));
                let j = choose|j: int| 0 <= j < old_self.by_name@.len() && old_self.by_name@[j] == e;
                assert(old_self.has_id(old_self.by_name@[j].1));
            }
            assert forall|j: int| 0 <= j < self.by_id@.len() implies exists|i: int| 0 <= i < self.by_name@.len()
                && (#[trigger] self.by_name@[i]).0@ == (#[trigger] self.by_id@[j]).name@ && self.by_name@[i].1 == self.by_id@[j].id by {
                let i = choose|i: int| 0 <= i < old_self.by_name@.len()
                    && (#[trigger] old_self.by_name@[i]).0@ == old_self.by_id@[j].name@ && old_self.by_name@[i].1 == old_self.by_id@[j].id;
                if old_self.by_id@[j].id == node_id {
                    if j != k {
                        if j < k {
                            assert(old_self.by_id@[j].id != old_self.by_id@[k as int].id);
                        } else {
                            assert(old_self.by_id@[k as int].id != old_self.by_id@[j].id);
                        }
                    }
                }
                assert(keeps_entry(old_self.by_name@[i], node_id, opt_view(Some(&own_name))));
                assert(self.by_name@.contains(old_self.by_name@[i]));
                let i3 = choose|i3: int| 0 <= i3 < self.by_name@.len() && self.by_name@[i3] == old_self.by_name@[i];
                assert(self.by_name@[i3].0@ == self.by_id@[j].name@);
            }
            assert(self.wf());
            assert(self.nodes() =~= old_self.nodes());
        }
        removed
    }

    /// Replacing a node by one with the same id and name keeps the manager well formed.
    proof fn lemma_update_node(old_m: Self, new_m: Self, k: int, n: Node<P>)
        requires
            old_m.wf(),
            0 <= k < old_m.by_id@.len(),
            new_m.by_name@ == old_m.by_name@,
            new_m.by_id@ == old_m.by_id@.update(k, n),
            n.id == old_m.by_id@[k].id,
            n.name@ == old_m.by_id@[k].name@,
        ensures
            new_m.wf(),
            new_m.names() == old_m.names(),
            new_m.nodes() == old_m.nodes().insert(n.id, n),
    {
        let ob = old_m.by_id@;
        let b = new_m.by_id@;
        assert forall|i: int, j: int| 0 <= i < j < b.len() implies (#[trigger] b[i]).id != (#[trigger] b[j]).id by {
            assert(ob[i].id != ob[j].id);
        }
        assert forall|x: NodeId| new_m.has_id(x) == old_m.has_id(x) by {
            if new_m.has_id(x) {
                let c = choose|c: int| 0 <= c < b.len() && (#[trigger] b[c]).id == x;
                assert(ob[c].id == x);
            }
            if old_m.has_id(x) {
                let c = choose|c: int| 0 <= c < ob.len() && (#[trigger] ob[c]).id == x;
                assert(b[c].id == x);
            }
        }
        assert forall|i: int| 0 <= i < new_m.by_name@.len() implies new_m.has_id((#[trigger] new_m.by_name@[i]).1) by {
            assert(old_m.has_id(old_m.by_name@[i].1));
        }
        assert forall|j: int| 0 <= j < b.len() implies exists|i: int| 0 <= i < new_m.by_name@.len()
            && (#[trigger] new_m.by_name@[i]).0@ == (#[trigger] b[j]).name@ && new_m.by_name@[i].1 == b[j].id by {
            let i = choose|i: int| 0 <= i < old_m.by_name@.len()
                && (#[trigger] old_m.by_name@[i]).0@ == ob[j].name@ && old_m.by_name@[i].1 == ob[j].id;
            assert(new_m.by_name@[i] == old_m.by_name@[i]);
        }
        assert(new_m.wf());
        assert(new_m.names() =~= old_m.names());
        assert forall|x: NodeId| #[trigger] new_m.nodes().contains_key(x) implies new_m.nodes()[x] == old_m.nodes().insert(n.id, n)[x] by {
            let c = choose|c: int| 0 <= c < b.len() && (#[trigger] b[c]).id == x;
            new_m.lemma_node_at(c);
            if c != k {
                old_m.lemma_node_at(c);
            }
        }
        old_m.lemma_node_at(k);
        assert(new_m.nodes() =~= old_m.nodes().insert(n.id, n));
    }

    /// Sets whether the node `node_id` still has to register.
    pub fn set_requires_registration(&mut self, node_id: NodeId, value: bool)
        requires
            old(self).wf(),
            old(self).nodes().contains_key(node_id),
        ensures
            final(self).wf(),
            final(self).names() == old(self).names(),
            final(self).nodes() == old(self).nodes().insert(
                node_id,
                Node { requires_registration: value, ..old(self).nodes()[node_id] },
            ),
    {
        let k = self.id_index(node_id).unwrap();
        let ghost old_self = *self;
        proof {
            old_self.lemma_node_at(k as int);
        }
        self.by_id[k].requires_registration = value;
        proof {
            Self::lemma_update_node(old_self, *self, k as int, self.by_id@[k as int]);
            assert(self.by_id@[k as int] == Node { requires_registration: value, ..old_self.by_id@[k as int] });
        }
    }

    /// Records how the process of the node `node_id` ended.
    pub fn set_exit_status(&mut self, node_id: NodeId, value: ExitStatus)
        requires
            old(self).wf(),
            old(self).nodes().contains_key(node_id),
        ensures
            final(self).wf(),
            final(self).names() == old(self).names(),
            final(self).nodes() == old(self).nodes().insert(
                node_id,
                Node { exit_status: value, ..old(self).nodes()[node_id] },
            ),
    {
        let k = self.id_index(node_id).unwrap();
        let ghost old_self = *self;
        proof {
            old_self.lemma_node_at(k as int);
        }
        self.by_id[k].exit_status = value;
        proof {
            Self::lemma_update_node(old_self, *self, k as int, self.by_id@[k as int]);
            assert(self.by_id@[k as int] == Node { exit_status: value, ..old_self.by_id@[k as int] });
        }
    }

    /// Sets whether the node `node_id` waits for a reset to finish.
    pub fn set_reset_requested(&mut self, node_id: NodeId, value: bool)
        requires
            old(self).wf(),
            old(self).nodes().contains_key(node_id),
        ensures
            final(self).wf(),
            final(self).names() == old(self).names(),
            final(self).nodes() == old(self).nodes().insert(
                node_id,
                Node { reset_requested: value, ..old(self).nodes()[node_id] },
            ),
    {
        let k = self.id_index(node_id).unwrap();
        let ghost old_self = *self;
        proof {
            old_self.lemma_node_at(k as int);
        }
        self.by_id[k].reset_requested = value;
        proof {
            Self::lemma_update_node(old_self, *self, k as int, self.by_id@[k as int]);
            assert(self.by_id@[k as int] == Node { reset_requested: value, ..old_self.by_id@[k as int] });
        }
    }

    /// The ids of all nodes, each once.
    pub fn node_ids(&self) -> (v: Vec<NodeId>)
        requires
            self.wf(),
        ensures
            forall|id: NodeId| #[trigger] self.nodes().contains_key(id) <==> v@.contains(id),
            v@.no_duplicates(),
    {
        let n = self.by_id.len();
        let mut v: Vec<NodeId> = Vec::new();
        let mut k: usize = 0;
        while k < n
            invariant
                self.wf(),
                n == self.by_id@.len(),
                0 <= k <= n,
                v.len() == k,
                forall|j: int| 0 <= j < k ==> #[trigger] v@[j] == self.by_id@[j].id,
            decreases n - k,
        {
            v.push(self.by_id[k].id);
            k = k + 1;
        }
        proof {
            assert forall|id: NodeId| #[trigger] self.nodes().contains_key(id) <==> v@.contains(id) by {
                if self.has_id(id) {
                    let c = choose|c: int| 0 <= c < n && (#[trigger] self.by_id@[c]).id == id;
                    assert(v@[c] == id);
                }
                if v@.contains(id) {
                    let c = choose|c: int| 0 <= c < v.len() && v@[c] == id;
                    assert(self.by_id@[c].id == id);
                }
            }
            assert forall|i: int, j: int| 0 <= i < v.len() && 0 <= j < v.len() && i != j implies v@[i] != v@[j] by {
                if i < j {
                    assert(self.by_id@[i].id != self.by_id@[j].id);
                } else {
                    assert(self.by_id@[j].id != self.by_id@[i].id);
                }
            }
        }
        v
    }
}

} // verus!
