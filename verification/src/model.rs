//! The rows, sessions and worktree states the panel is about.

use crate::path::{components, path_key, raw};
use std::path::PathBuf;
use vstd::prelude::*;

verus! {

/// What a row of the tree stands for.
#[derive(Debug, Clone, Copy, PartialEq, Eq, Structural)]
pub enum RowKind {
    /// A worktree.
    Worktree,
    /// A session filed under its worktree.
    Session,
    /// A session whose worktree is gone.
    Orphan,
    /// The heading above the orphaned sessions.
    Orphans,
    /// The line that shows more of a node's sessions.
    More,
}

/// Whether a session is running now or can be taken up again.
#[derive(Debug, Clone, Copy, PartialEq, Eq, Structural)]
pub enum SessionKind {
    Live,
    Resumable,
}

/// The node of the tree a row belongs to.
#[derive(Debug, PartialEq, Eq)]
pub enum NodeId {
    Worktree(PathBuf),
    Orphans,
}

/// What identifies a node: for a worktree, its path whatever the spelling.
pub enum NodeKey {
    Worktree(Seq<Seq<u8>>),
    Orphans,
}

impl View for NodeId {
    type V = NodeKey;

    open spec fn view(&self) -> NodeKey {
        match *self {
            NodeId::Worktree(path) => NodeKey::Worktree(path_key(path)),
            NodeId::Orphans => NodeKey::Orphans,
        }
    }
}

impl Clone for NodeId {
    fn clone(&self) -> (copy: Self)
        ensures
            copy == *self,
    {
        match self {
            NodeId::Worktree(path) => NodeId::Worktree(path.clone()),
            NodeId::Orphans => NodeId::Orphans,
        }
    }
}

/// One line of the tree.
#[derive(Debug)]
pub struct Row {
    pub node: NodeId,
    pub kind: RowKind,
    /// The session the row is bound to, where it is bound to one.
    pub session_id: Option<String>,
    pub glyph: String,
    pub label: String,
    pub badge: String,
    pub location: String,
}

impl Clone for Row {
    fn clone(&self) -> (copy: Self)
        ensures
            copy == *self,
    {
        Row {
            node: self.node.clone(),
            kind: self.kind,
            session_id: self.session_id.clone(),
            glyph: self.glyph.clone(),
            label: self.label.clone(),
            badge: self.badge.clone(),
            location: self.location.clone(),
        }
    }
}

/// A conversation with an agent.
#[derive(Debug, PartialEq, Eq)]
pub struct Session {
    pub id: String,
    pub agent: String,
    pub kind: SessionKind,
}

/// The git state of a worktree.
#[derive(Debug, Clone, Copy, PartialEq, Eq, Structural)]
pub struct GitStatus {
    pub changed: usize,
    pub untracked: usize,
    pub ahead: usize,
    pub behind: usize,
    pub has_upstream: bool,
}

impl Default for GitStatus {
    fn default() -> (status: Self)
        ensures
            status == (GitStatus {
                changed: 0,
                untracked: 0,
                ahead: 0,
                behind: 0,
                has_upstream: false,
            }),
    {
        GitStatus { changed: 0, untracked: 0, ahead: 0, behind: 0, has_upstream: false }
    }
}

impl GitStatus {
    /// Whether the worktree holds work that git will not throw away.
    pub open spec fn dirty(self) -> bool {
        self.changed > 0 || self.untracked > 0
    }

    pub fn is_dirty(&self) -> (dirty: bool)
        ensures
            dirty == self.dirty(),
            dirty <==> self.changed > 0 || self.untracked > 0,
    {
        self.changed > 0 || self.untracked > 0
    }
}

/// Two nodes are one exactly where both head the orphans, or both are worktrees
/// and their paths have the same components.
pub proof fn law_nodes_are_told_apart_by_their_paths(a: NodeId, b: NodeId)
    ensures
        a@ == b@ <==> match (a, b) {
            (NodeId::Worktree(a), NodeId::Worktree(b)) => components(raw(a)) == components(raw(b)),
            (NodeId::Orphans, NodeId::Orphans) => true,
            _ => false,
        },
{
}

/// A worktree is dirty exactly where files of it are changed or untracked;
/// commits ahead or behind make it no dirtier.
pub proof fn law_dirt_is_changed_or_untracked_files(status: GitStatus)
    ensures
        status.dirty() <==> status.changed != 0 || status.untracked != 0,
{
}

} // verus!
