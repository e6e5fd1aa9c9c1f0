//! Sets of nodes of the tree.

use crate::model::{NodeId, NodeKey};
use vstd::prelude::*;

verus! {

/// A set of nodes. Two spellings of one worktree are one node.
#[derive(Debug)]
pub struct NodeSet {
    nodes: Vec<NodeId>,
}

/// No node occurs twice.
pub open spec fn nodes_distinct(nodes: Seq<NodeId>) -> bool {
    forall|i: int, j: int|
        0 <= i < j < nodes.len() ==> (#[trigger] nodes[i])@ != (#[trigger] nodes[j])@
}

pub open spec fn has_node(nodes: Seq<NodeId>, key: NodeKey) -> bool {
    exists|i: int| 0 <= i < nodes.len() && (#[trigger] nodes[i])@ == key
}

impl View for NodeSet {
    type V = Set<NodeKey>;

    closed spec fn view(&self) -> Set<NodeKey> {
        Set::new(|key: NodeKey| has_node(self.nodes@, key))
    }
}

/// Whether two nodes are one.
fn same_node(a: &NodeId, b: &NodeId) -> (same: bool)
    ensures
        same == (a@ == b@),
{
    match (a, b) {
        (NodeId::Worktree(a), NodeId::Worktree(b)) => *a == *b,
        (NodeId::Orphans, NodeId::Orphans) => true,
        _ => false,
    }
}

impl NodeSet {
    #[verifier::type_invariant]
    closed spec fn no_node_twice(self) -> bool {
        nodes_distinct(self.nodes@)
    }

    /// The set with nothing in it.
    pub fn new() -> (set: Self)
        ensures
            set@ == Set::<NodeKey>::empty(),
    {
        let set = NodeSet { nodes: Vec::new() };
        assert(set@ =~= Set::<NodeKey>::empty());
        set
    }

    /// The nodes, each of them once.
    pub fn nodes(&self) -> (nodes: &Vec<NodeId>)
        ensures
            nodes_distinct(nodes@),
            forall|key: NodeKey| #[trigger] self@.contains(key) == has_node(nodes@, key),
    {
        proof {
            use_type_invariant(self);
        }
        &self.nodes
    }

    /// Whether a node is in the set.
    pub fn contains(&self, node: &NodeId) -> (found: bool)
        ensures
            found == self@.contains(node@),
    {
        let mut at: usize = 0;
        while at < self.nodes.len()
            invariant
                at <= self.nodes@.len(),
                forall|i: int| 0 <= i < at ==> (#[trigger] self.nodes@[i])@ != node@,
            decreases self.nodes@.len() - at,
        {
            if same_node(&self.nodes[at], node) {
                assert(self.nodes@[at as int]@ == node@);
                return true;
            }
            at += 1;
        }
        false
    }

    /// Puts a node into the set.
    pub fn insert(&mut self, node: &NodeId)
        ensures
            final(self)@ == old(self)@.insert(node@),
    {
        let found = self.contains(node);
        proof {
            use_type_invariant(&*self);
        }
        let ghost before = self.nodes@;
        if !found {
            let mut nodes: Vec<NodeId> = Vec::new();
            std::mem::swap(&mut nodes, &mut self.nodes);
            nodes.push(node.clone());
            proof {
                assert(!has_node(before, node@));
                assert forall|i: int, j: int| 0 <= i < j < nodes@.len() implies (
                #[trigger] nodes@[i])@ != (#[trigger] nodes@[j])@ by {
                    assert(before[i]@ != node@);
                }
                assert forall|key: NodeKey| #[trigger]
                    has_node(nodes@, key) == (has_node(before, key) || key == node@) by {
                    if has_node(before, key) {
                        let i = choose|i: int| 0 <= i < before.len() && (#[trigger] before[i])@ == key;
                        assert(nodes@[i]@ == key);
                    }
                    if has_node(nodes@, key) && key != node@ {
                        let i = choose|i: int| 0 <= i < nodes@.len() && (#[trigger] nodes@[i])@ == key;
                        assert(before[i]@ == key);
                    }
                    if key == node@ {
                        assert(nodes@[before.len() as int]@ == key);
                    }
                }
            }
            self.nodes = nodes;
        }
        assert(self@ =~= old(self)@.insert(node@));
    }

    /// A set that holds the same.
    pub fn copy(&self) -> (copy: Self)
        ensures
            copy@ == self@,
    {
        proof {
            use_type_invariant(self);
        }
        let nodes = self.nodes.clone();
        assert(nodes@ =~= self.nodes@);
        NodeSet { nodes }
    }
}

} // verus!
