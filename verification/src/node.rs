//! Trace-tree nodes: one node per resolved field, with its identity,
//! timing offsets, recorded errors and children in completion order.

use vstd::prelude::*;

verus! {

/// Identity of a node: either a field response name or a list index,
/// never both.
#[derive(Debug, Clone)]
pub enum NodeId {
    ResponseName(String),
    Index(u32),
}

/// Source position attached to a field error.
#[derive(Debug, Clone, PartialEq, Eq, Structural)]
pub struct ErrorLocation {
    pub line: u32,
    pub column: u32,
}

/// One error recorded against a node: the message, its source locations,
/// and the serialized diagnostic.
#[derive(Debug, Clone)]
pub struct ErrorEntry {
    pub message: String,
    pub locations: Vec<ErrorLocation>,
    pub json: String,
}

/// One field resolution's span. `end_offset_ns` stays `None` until the
/// resolution completes; children are appended in the order their own
/// resolutions complete.
#[derive(Debug)]
pub struct TraceNode {
    pub id: NodeId,
    pub parent_type: String,
    pub field_type: String,
    pub original_field_name: String,
    pub start_offset_ns: u64,
    pub end_offset_ns: Option<u64>,
    pub children: Vec<TraceNode>,
    pub errors: Vec<ErrorEntry>,
}

/// Number of nodes in the subtree rooted at `n`, counting `n` itself.
pub open spec fn node_count(n: TraceNode) -> nat
    decreases n,
{
    1 + nodes_count(n.children@)
}

/// Total number of nodes over a sequence of subtrees.
pub open spec fn nodes_count(s: Seq<TraceNode>) -> nat
    decreases s,
{
    if s.len() == 0 {
        0
    } else {
        nodes_count(s.drop_last()) + node_count(s.last())
    }
}

/// A node is finalized when its end offset is set, no earlier than its
/// start offset, and all of its children are finalized too.
pub open spec fn node_finalized(n: TraceNode) -> bool
    decreases n,
{
    &&& n.end_offset_ns is Some
    &&& n.end_offset_ns->0 >= n.start_offset_ns
    &&& forall|i: int|
        0 <= i < n.children@.len() ==> node_finalized(#[trigger] n.children@[i])
}

/// Every subtree in the sequence is finalized.
pub open spec fn nodes_finalized(s: Seq<TraceNode>) -> bool {
    forall|i: int| 0 <= i < s.len() ==> node_finalized(#[trigger] s[i])
}

/// `m` occurs somewhere in the subtree rooted at `n` (including `n` itself).
pub open spec fn in_subtree(m: TraceNode, n: TraceNode) -> bool
    decreases n,
{
    ||| m == n
    ||| exists|i: int|
        0 <= i < n.children@.len() && in_subtree(m, #[trigger] n.children@[i])
}

/// `a` is a proper ancestor of `m` when `m` sits strictly below `a`.
pub open spec fn is_proper_ancestor_of(a: TraceNode, m: TraceNode) -> bool {
    exists|i: int| 0 <= i < a.children@.len() && in_subtree(m, #[trigger] a.children@[i])
}

/// A subtree holds at least as many nodes as any subtree inside it.
pub proof fn lemma_in_subtree_count(m: TraceNode, n: TraceNode)
    requires
        in_subtree(m, n),
    ensures
        node_count(m) <= node_count(n),
    decreases n,
{
    if m == n {
    } else {
        let i = choose|i: int|
            0 <= i < n.children@.len() && in_subtree(m, #[trigger] n.children@[i]);
        lemma_in_subtree_count(m, n.children@[i]);
        lemma_nodes_count_member(n.children@, i);
    }
}

/// The total count over a sequence of subtrees bounds each member's count.
pub proof fn lemma_nodes_count_member(s: Seq<TraceNode>, i: int)
    requires
        0 <= i < s.len(),
    ensures
        node_count(s[i]) <= nodes_count(s),
    decreases s.len(),
{
    if i == s.len() - 1 {
        assert(s.last() == s[i]);
    } else {
        lemma_nodes_count_member(s.drop_last(), i);
        assert(s.drop_last()[i] == s[i]);
    }
}

/// No node is an ancestor of itself: the ancestor relation that the
/// finished tree induces is irreflexive.
pub proof fn lemma_no_self_ancestor(m: TraceNode)
    ensures
        !is_proper_ancestor_of(m, m),
{
    if is_proper_ancestor_of(m, m) {
        let i = choose|i: int|
            0 <= i < m.children@.len() && in_subtree(m, #[trigger] m.children@[i]);
        lemma_in_subtree_count(m, m.children@[i]);
        lemma_nodes_count_member(m.children@, i);
        assert(node_count(m) <= nodes_count(m.children@));
        assert(node_count(m) == 1 + nodes_count(m.children@));
    }
}

/// Appending a subtree to a sequence adds exactly its node count.
pub proof fn lemma_nodes_count_push(s: Seq<TraceNode>, n: TraceNode)
    ensures
        nodes_count(s.push(n)) == nodes_count(s) + node_count(n),
{
    assert(s.push(n).drop_last() =~= s);
    assert(s.push(n).last() == n);
}

} // verus!
