//! Per-request trace-tree construction.
//!
//! A `TraceTreeBuilder` records one node per field resolution, keyed by the
//! field's document path. When a field's resolution completes the node is
//! evicted from the pending map and attached, in one step, as a child of the
//! node registered under its parent path — or directly under the root when
//! that path is absent (top-level field, or parent already finalized).
//! Callers serialize access to one builder (one mutual-exclusion scope per
//! request); each method below is one such critical section.

use vstd::prelude::*;

use crate::node::ErrorEntry;
use crate::node::NodeId;
use crate::node::TraceNode;
use crate::node::node_count;
use crate::node::node_finalized;
use crate::node::nodes_count;
use crate::node::nodes_finalized;
use crate::node::lemma_nodes_count_push;

verus! {

/// A node still being resolved, registered under its document path,
/// together with the parent path given when resolution began.
pub struct PendingEntry {
    pub path: String,
    pub parent_path: Option<String>,
    pub node: TraceNode,
}

/// Handle returned by `begin_field`, used to address the node until its
/// resolution completes.
#[derive(Debug, Clone)]
pub struct NodeHandle {
    pub path: String,
}

/// Some pending entry carries this path.
pub open spec fn has_path(s: Seq<PendingEntry>, path: Seq<char>) -> bool {
    exists|i: int| 0 <= i < s.len() && #[trigger] s[i].path@ == path
}

/// Index of the entry carrying this path (meaningful when `has_path` holds
/// and paths are distinct).
pub open spec fn path_index(s: Seq<PendingEntry>, path: Seq<char>) -> int {
    choose|i: int| 0 <= i < s.len() && #[trigger] s[i].path@ == path
}

/// No two pending entries share a path.
pub open spec fn paths_distinct(s: Seq<PendingEntry>) -> bool {
    forall|i: int, j: int|
        0 <= i < j < s.len() ==> #[trigger] s[i].path@ != #[trigger] s[j].path@
}

/// Number of nodes already attached below the pending entries' nodes.
pub open spec fn pending_attached(s: Seq<PendingEntry>) -> nat
    decreases s,
{
    if s.len() == 0 {
        0
    } else {
        pending_attached(s.drop_last()) + nodes_count(s.last().node.children@)
    }
}

/// An entry's node awaits its end offset, while everything attached below
/// it is already finalized.
pub open spec fn pending_entry_ok(e: PendingEntry) -> bool {
    &&& e.node.end_offset_ns is None
    &&& nodes_finalized(e.node.children@)
}

/// `b` is `a` with its end offset set to `end` and all else unchanged.
pub open spec fn finished_as(b: TraceNode, a: TraceNode, end: u64) -> bool {
    &&& b.id == a.id
    &&& b.parent_type == a.parent_type
    &&& b.field_type == a.field_type
    &&& b.original_field_name == a.original_field_name
    &&& b.start_offset_ns == a.start_offset_ns
    &&& b.end_offset_ns == Some(end)
    &&& b.children == a.children
    &&& b.errors == a.errors
}

/// `b` is `a` with one more error recorded and all else unchanged.
pub open spec fn with_error(b: TraceNode, a: TraceNode, e: ErrorEntry) -> bool {
    &&& b.id == a.id
    &&& b.parent_type == a.parent_type
    &&& b.field_type == a.field_type
    &&& b.original_field_name == a.original_field_name
    &&& b.start_offset_ns == a.start_offset_ns
    &&& b.end_offset_ns == a.end_offset_ns
    &&& b.children == a.children
    &&& b.errors@ == a.errors@.push(e)
}

/// `b` and `a` agree on everything but their children.
pub open spec fn same_but_children(b: TraceNode, a: TraceNode) -> bool {
    &&& b.id == a.id
    &&& b.parent_type == a.parent_type
    &&& b.field_type == a.field_type
    &&& b.original_field_name == a.original_field_name
    &&& b.start_offset_ns == a.start_offset_ns
    &&& b.end_offset_ns == a.end_offset_ns
    &&& b.errors == a.errors
}

/// A node as `begin_field` creates it: the given identity and type context,
/// the given start offset, no end offset, no children, no errors.
pub open spec fn fresh_node(
    n: TraceNode,
    id: NodeId,
    parent_type: String,
    field_type: String,
    field_name: String,
    start_offset_ns: u64,
) -> bool {
    &&& n.id == id
    &&& n.parent_type == parent_type
    &&& n.field_type == field_type
    &&& n.original_field_name == field_name
    &&& n.start_offset_ns == start_offset_ns
    &&& n.end_offset_ns is None
    &&& n.children@.len() == 0
    &&& n.errors@.len() == 0
}

/// Removing an entry subtracts exactly its attached count.
proof fn lemma_attached_remove(s: Seq<PendingEntry>, i: int)
    requires
        0 <= i < s.len(),
    ensures
        pending_attached(s.remove(i)) == pending_attached(s) - nodes_count(
            s[i].node.children@,
        ),
    decreases s.len(),
{
    if i == s.len() - 1 {
        assert(s.remove(i) =~= s.drop_last());
    } else {
        assert(s.remove(i).drop_last() =~= s.drop_last().remove(i));
        assert(s.remove(i).last() == s.last());
        lemma_attached_remove(s.drop_last(), i);
    }
}

/// Replacing an entry swaps its attached count for the new one's.
proof fn lemma_attached_update(s: Seq<PendingEntry>, i: int, e: PendingEntry)
    requires
        0 <= i < s.len(),
    ensures
        pending_attached(s.update(i, e)) == pending_attached(s) - nodes_count(
            s[i].node.children@,
        ) + nodes_count(e.node.children@),
    decreases s.len(),
{
    if i == s.len() - 1 {
        assert(s.update(i, e).drop_last() =~= s.drop_last());
        assert(s.update(i, e).last() == e);
    } else {
        assert(s.update(i, e).drop_last() =~= s.drop_last().update(i, e));
        assert(s.update(i, e).last() == s.last());
        lemma_attached_update(s.drop_last(), i, e);
    }
}

/// Appending an entry adds exactly its attached count.
proof fn lemma_attached_push(s: Seq<PendingEntry>, e: PendingEntry)
    ensures
        pending_attached(s.push(e)) == pending_attached(s) + nodes_count(
            e.node.children@,
        ),
{
    assert(s.push(e).drop_last() =~= s);
    assert(s.push(e).last() == e);
}

/// Builds one request's trace tree. Nodes registered by `begin_field` stay
/// pending until `end_field` evicts them and attaches them in one atomic
/// lookup-plus-append step; `finalize` hands the finished root over.
pub struct TraceTreeBuilder {
    root_children: Vec<TraceNode>,
    pending: Vec<PendingEntry>,
    used_paths: Ghost<Set<Seq<char>>>,
    began_count: Ghost<nat>,
    ended_count: Ghost<nat>,
}

impl TraceTreeBuilder {
    /// Children already attached directly under the root.
    pub closed spec fn roots(self) -> Seq<TraceNode> {
        self.root_children@
    }

    /// The pending entries, in registration order.
    pub closed spec fn pending(self) -> Seq<PendingEntry> {
        self.pending@
    }

    /// Every path ever registered by `begin_field`.
    pub closed spec fn used(self) -> Set<Seq<char>> {
        self.used_paths@
    }

    /// How many fields have begun resolution.
    pub closed spec fn began(self) -> nat {
        self.began_count@
    }

    /// How many fields have completed resolution.
    pub closed spec fn ended(self) -> nat {
        self.ended_count@
    }

    /// Tree integrity invariant: pending paths are distinct and registered,
    /// everything attached is finalized, and every ended node is attached in
    /// exactly one place — under the root or under exactly one pending node.
    pub closed spec fn wf(self) -> bool {
        &&& paths_distinct(self.pending@)
        &&& nodes_finalized(self.root_children@)
        &&& forall|i: int|
            0 <= i < self.pending@.len() ==> pending_entry_ok(#[trigger] self.pending@[i])
        &&& forall|i: int|
            0 <= i < self.pending@.len() ==> self.used_paths@.contains(
                #[trigger] self.pending@[i].path@,
            )
        &&& nodes_count(self.root_children@) + pending_attached(self.pending@)
            == self.ended_count@
        &&& self.pending@.len() + self.ended_count@ == self.began_count@
    }

    /// A fresh builder: nothing registered, nothing attached.
    pub fn new() -> (b: TraceTreeBuilder)
        ensures
            b.wf(),
            b.roots().len() == 0,
            b.pending().len() == 0,
            b.used() == Set::<Seq<char>>::empty(),
            b.began() == 0,
            b.ended() == 0,
    {
        let b = TraceTreeBuilder {
            root_children: Vec::new(),
            pending: Vec::new(),
            used_paths: Ghost(Set::empty()),
            began_count: Ghost(0),
            ended_count: Ghost(0),
        };
        proof {
            assert(pending_attached(b.pending@) == 0);
            assert(nodes_count(b.root_children@) == 0);
        }
        b
    }

    /// First pending index carrying `path`, if any.
    fn find_entry(&self, path: &String) -> (r: Option<usize>)
        ensures
            match r {
                Some(i) => {
                    &&& i < self.pending@.len()
                    &&& self.pending@[i as int].path@ == path@
                    &&& paths_distinct(self.pending@) ==> i == path_index(
                        self.pending@,
                        path@,
                    )
                },
                None => !has_path(self.pending@, path@),
            },
    {
        let n = self.pending.len();
        let mut k: usize = 0;
        while k < n
            invariant
                n == self.pending@.len(),
                k <= n,
                forall|m: int| 0 <= m < k ==> #[trigger] self.pending@[m].path@ != path@,
            decreases n - k,
        {
            if self.pending[k].path == *path {
                proof {
                    if paths_distinct(self.pending@) {
                        let j = path_index(self.pending@, path@);
                        assert(0 <= j < self.pending@.len() && self.pending@[j].path@
                            == path@);
                    }
                }
                return Some(k);
            }
            k += 1;
        }
        None
    }

    /// Allocates the node for one field resolution and registers it under
    /// `path`. Paths must be unique within one request; a duplicate is a
    /// caller error, ruled out by contract. The node starts with no end
    /// offset, no children and an empty error list.
    pub fn begin_field(
        &mut self,
        path: String,
        parent_path: Option<String>,
        parent_type: String,
        field_type: String,
        field_name: String,
        id: NodeId,
        start_offset_ns: u64,
    ) -> (h: NodeHandle)
        requires
            old(self).wf(),
            !old(self).used().contains(path@),
        ensures
            final(self).wf(),
            h.path@ == path@,
            final(self).roots() == old(self).roots(),
            final(self).used() == old(self).used().insert(path@),
            final(self).began() == old(self).began() + 1,
            final(self).ended() == old(self).ended(),
            final(self).pending().len() == old(self).pending().len() + 1,
            final(self).pending().drop_last() == old(self).pending(),
            ({
                let e = final(self).pending().last();
                &&& e.path@ == path@
                &&& e.parent_path == parent_path
                &&& fresh_node(e.node, id, parent_type, field_type, field_name,
                    start_offset_ns)
            }),
    {
        let h = NodeHandle { path: path.clone() };
        let node = TraceNode {
            id,
            parent_type,
            field_type,
            original_field_name: field_name,
            start_offset_ns,
            end_offset_ns: None,
            children: Vec::new(),
            errors: Vec::new(),
        };
        let entry = PendingEntry { path, parent_path, node };
        proof {
            lemma_attached_push(self.pending@, entry);
        }
        self.pending.push(entry);
        self.used_paths = Ghost(self.used_paths@.insert(h.path@));
        self.began_count = Ghost(self.began_count@ + 1);
        proof {
            assert(self.pending@.drop_last() =~= old(self).pending@);
            assert forall|i: int, j: int| 0 <= i < j < self.pending@.len() implies
                #[trigger] self.pending@[i].path@ != #[trigger] self.pending@[j].path@ by {
                if j == self.pending@.len() - 1 {
                    assert(old(self).used_paths@.contains(self.pending@[i].path@));
                }
            }
        }
        h
    }

    /// Appends one error entry to the pending node addressed by `h`.
    /// Each call adds exactly one entry, in call order; nothing else in the
    /// tree changes.
    pub fn record_error(&mut self, h: &NodeHandle, error: ErrorEntry)
        requires
            old(self).wf(),
            has_path(old(self).pending(), h.path@),
        ensures
            final(self).wf(),
            final(self).roots() == old(self).roots(),
            final(self).used() == old(self).used(),
            final(self).began() == old(self).began(),
            final(self).ended() == old(self).ended(),
            final(self).pending().len() == old(self).pending().len(),
            ({
                let i = path_index(old(self).pending(), h.path@);
                &&& forall|k: int|
                    0 <= k < old(self).pending().len() && k != i
                        ==> #[trigger] final(self).pending()[k] == old(self).pending()[k]
                &&& final(self).pending()[i].path == old(self).pending()[i].path
                &&& final(self).pending()[i].parent_path == old(self).pending()[i].parent_path
                &&& with_error(final(self).pending()[i].node, old(self).pending()[i].node, error)
            }),
    {
        let i = match self.find_entry(&h.path) {
            Some(i) => i,
            None => {
                proof {
                    assert(false);
                }
                0
            },
        };
        let ghost pend0 = self.pending@;
        let mut entry = self.pending.remove(i);
        entry.node.errors.push(error);
        self.pending.insert(i, entry);
        proof {
            assert(self.pending@ =~= pend0.update(i as int, self.pending@[i as int]));
            lemma_attached_update(pend0, i as int, self.pending@[i as int]);
        }
    }

    /// Completes the field addressed by `h`: sets its end offset, evicts it
    /// from the pending map, and — in the same critical section — attaches it
    /// as a child of the node registered under its parent path, or directly
    /// under the root when that path is absent. Sibling order is completion
    /// order; the node is attached in exactly one place.
    pub fn end_field(&mut self, h: &NodeHandle, end_offset_ns: u64)
        requires
            old(self).wf(),
            has_path(old(self).pending(), h.path@),
            end_offset_ns >= old(self).pending()[path_index(
                old(self).pending(),
                h.path@,
            )].node.start_offset_ns,
        ensures
            final(self).wf(),
            final(self).used() == old(self).used(),
            final(self).began() == old(self).began(),
            final(self).ended() == old(self).ended() + 1,
            final(self).pending().len() + 1 == old(self).pending().len(),
            ({
                let i = path_index(old(self).pending(), h.path@);
                let en = old(self).pending()[i];
                let rest = old(self).pending().remove(i);
                if en.parent_path is Some && has_path(rest, en.parent_path->0@) {
                    let j = path_index(rest, en.parent_path->0@);
                    &&& final(self).roots() == old(self).roots()
                    &&& forall|k: int|
                        0 <= k < rest.len() && k != j ==> #[trigger] final(self).pending()[k]
                            == rest[k]
                    &&& final(self).pending()[j].path == rest[j].path
                    &&& final(self).pending()[j].parent_path == rest[j].parent_path
                    &&& same_but_children(final(self).pending()[j].node, rest[j].node)
                    &&& final(self).pending()[j].node.children@.len() == rest[j].node.children@.len()
                        + 1
                    &&& final(self).pending()[j].node.children@.drop_last()
                        == rest[j].node.children@
                    &&& finished_as(final(self).pending()[j].node.children@.last(), en.node,
                        end_offset_ns)
                } else {
                    &&& final(self).pending() == rest
                    &&& final(self).roots().len() == old(self).roots().len() + 1
                    &&& final(self).roots().drop_last() == old(self).roots()
                    &&& finished_as(final(self).roots().last(), en.node, end_offset_ns)
                }
            }),
    {
        let i = match self.find_entry(&h.path) {
            Some(i) => i,
            None => {
                proof {
                    assert(false);
                }
                0
            },
        };
        let ghost pend0 = self.pending@;
        let mut entry = self.pending.remove(i);
        entry.node.end_offset_ns = Some(end_offset_ns);
        proof {
            lemma_attached_remove(pend0, i as int);
            assert(node_finalized(entry.node));
        }
        let parent_at: Option<usize> = match &entry.parent_path {
            Some(pp) => self.find_entry(pp),
            None => None,
        };
        match parent_at {
            Some(j) => {
                let ghost rest = self.pending@;
                let mut parent = self.pending.remove(j);
                proof {
                    lemma_nodes_count_push(parent.node.children@, entry.node);
                }
                parent.node.children.push(entry.node);
                self.pending.insert(j, parent);
                proof {
                    assert(self.pending@ =~= rest.update(j as int, self.pending@[j as int]));
                    lemma_attached_update(rest, j as int, self.pending@[j as int]);
                    assert(nodes_finalized(self.pending@[j as int].node.children@));
                }
            },
            None => {
                proof {
                    lemma_nodes_count_push(self.root_children@, entry.node);
                }
                self.root_children.push(entry.node);
                proof {
                    assert(self.root_children@.drop_last() =~= old(self).root_children@);
                    assert(nodes_finalized(self.root_children@));
                }
            },
        }
        self.ended_count = Ghost(self.ended_count@ + 1);
    }

    /// Conservation behind tree integrity: in a well-formed builder every
    /// field that ended is attached in exactly one place — counted once
    /// below the root or once below exactly one pending node — and the
    /// pending fields are exactly those begun but not yet ended. With all
    /// fields ended, the finished tree therefore holds each begun node
    /// exactly once.
    pub proof fn lemma_node_conservation(self)
        requires
            self.wf(),
        ensures
            nodes_count(self.roots()) + pending_attached(self.pending()) == self.ended(),
            self.pending().len() + self.ended() == self.began(),
    {
    }

    /// Hands the finished tree over and invalidates the builder. The root is
    /// synthetic (zero offsets, empty identity); its children are the
    /// attached top-level nodes, all finalized. When every begun field has
    /// also ended, the tree below the root holds each of them exactly once.
    pub fn finalize(self) -> (root: TraceNode)
        requires
            self.wf(),
        ensures
            root.children@ == self.roots(),
            root.start_offset_ns == 0,
            root.end_offset_ns == Some(0u64),
            root.errors@.len() == 0,
            node_finalized(root),
            self.pending().len() == 0 ==> nodes_count(root.children@) == self.began(),
            nodes_count(root.children@) + pending_attached(self.pending())
                == self.ended(),
    {
        let root = TraceNode {
            id: NodeId::ResponseName(String::new()),
            parent_type: String::new(),
            field_type: String::new(),
            original_field_name: String::new(),
            start_offset_ns: 0,
            end_offset_ns: Some(0),
            children: self.root_children,
            errors: Vec::new(),
        };
        proof {
            if self.pending@.len() == 0 {
                assert(pending_attached(self.pending@) == 0);
            }
        }
        root
    }
}

} // verus!
