//! How many sessions each node of the tree shows.

use crate::model::{NodeId, NodeKey};
use crate::path_map::PathMap;
use vstd::prelude::*;

verus! {

/// A number for each node that has one.
#[derive(Debug)]
pub struct NodeMap {
    worktrees: PathMap<usize>,
    orphans: Option<usize>,
}

impl View for NodeMap {
    type V = Map<NodeKey, usize>;

    closed spec fn view(&self) -> Map<NodeKey, usize> {
        Map::new(|key: NodeKey| self.has(key), |key: NodeKey| self.number(key))
    }
}

/// What a lookup gives.
pub open spec fn number_for(map: Map<NodeKey, usize>, key: NodeKey) -> Option<usize> {
    if map.dom().contains(key) {
        Some(map[key])
    } else {
        None
    }
}

impl NodeMap {
    spec fn has(self, key: NodeKey) -> bool {
        match key {
            NodeKey::Worktree(path) => self.worktrees@.dom().contains(path),
            NodeKey::Orphans => self.orphans is Some,
        }
    }

    spec fn number(self, key: NodeKey) -> usize {
        match key {
            NodeKey::Worktree(path) => self.worktrees@[path],
            NodeKey::Orphans => self.orphans->0,
        }
    }

    /// No node has a number.
    pub fn new() -> (map: Self)
        ensures
            map@ == Map::<NodeKey, usize>::empty(),
    {
        let map = NodeMap { worktrees: PathMap::new(), orphans: None };
        assert(map@ =~= Map::<NodeKey, usize>::empty());
        map
    }

    /// The number of a node.
    pub fn get(&self, node: &NodeId) -> (number: Option<usize>)
        ensures
            number == number_for(self@, node@),
    {
        match node {
            NodeId::Worktree(path) => self.worktrees.get(path),
            NodeId::Orphans => self.orphans,
        }
    }

    /// Gives a node a number, in place of the one it had.
    pub fn insert(&mut self, node: &NodeId, number: usize)
        ensures
            final(self)@ == old(self)@.insert(node@, number),
    {
        match node {
            NodeId::Worktree(path) => {
                self.worktrees.insert(path.clone(), number);
            },
            NodeId::Orphans => {
                self.orphans = Some(number);
            },
        }
        assert(self@ =~= old(self)@.insert(node@, number));
    }

    /// The same numbers.
    pub fn copy(&self) -> (copy: Self)
        ensures
            copy@ == self@,
    {
        let copy = NodeMap { worktrees: self.worktrees.copy(), orphans: self.orphans };
        assert(copy@ =~= self@);
        copy
    }

    /// The numbers of the worktrees.
    pub fn worktrees(&self) -> (worktrees: &PathMap<usize>)
        ensures
            forall|path: Seq<Seq<u8>>| #[trigger]
                self@.dom().contains(NodeKey::Worktree(path)) == worktrees@.dom().contains(path),
            forall|path: Seq<Seq<u8>>|
                worktrees@.dom().contains(path) ==> #[trigger] worktrees@[path]
                    == self@[NodeKey::Worktree(path)],
    {
        &self.worktrees
    }
}

/// The number given to a node is the one it has until it is given another, and
/// the numbers of other nodes stay.
pub proof fn law_the_number_given_is_found(
    map: Map<NodeKey, usize>,
    node: NodeKey,
    number: usize,
    asked: NodeKey,
)
    ensures
        number_for(map.insert(node, number), node) == Some(number),
        asked != node ==> number_for(map.insert(node, number), asked) == number_for(map, asked),
        number_for(Map::<NodeKey, usize>::empty(), asked) is None,
{
}

} // verus!
