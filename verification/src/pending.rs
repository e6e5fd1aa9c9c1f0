//! The agent run that waits for the workspace a worktree switch is building.

use crate::path::{components, raw, same_path};
use std::path::PathBuf;
use vstd::prelude::*;

verus! {

/// A run, and the worktree whose workspace it is meant for.
#[derive(Debug, PartialEq, Eq)]
pub struct PendingRun {
    pub worktree: PathBuf,
    pub cwd: PathBuf,
    pub command: Vec<String>,
}

/// An agent run waiting for the workspace that a worktree switch is building.
/// Switching replaces the workspace, so the panel that asked for the run is
/// torn down before it could start it; the panel of the new workspace picks
/// the run up as it loads.
#[derive(Debug, PartialEq, Eq)]
pub struct PendingAgentRun(pub Option<PendingRun>);

impl Default for PendingAgentRun {
    fn default() -> (pending: Self)
        ensures
            pending == PendingAgentRun::nothing(),
    {
        PendingAgentRun(None)
    }
}

impl PendingAgentRun {
    /// No run is waiting.
    pub open spec fn nothing() -> Self {
        PendingAgentRun(None)
    }

    /// A run is waiting for `worktree`.
    pub open spec fn waiting(worktree: PathBuf, cwd: PathBuf, command: Vec<String>) -> Self {
        PendingAgentRun(Some(PendingRun { worktree, cwd, command }))
    }

    /// Whether the workspace at `root` is the one the waiting run is meant for.
    pub open spec fn meant_for(self, root: PathBuf) -> bool {
        self.0 matches Some(run) && same_path(run.worktree, root)
    }

    /// What the workspace at `root` is handed.
    pub open spec fn handed_to(self, root: PathBuf) -> Option<(PathBuf, Vec<String>)> {
        if self.meant_for(root) {
            Some((self.0->0.cwd, self.0->0.command))
        } else {
            None
        }
    }

    /// What is left once the workspace at `root` has asked.
    pub open spec fn after_handing_to(self, root: PathBuf) -> Self {
        if self.meant_for(root) {
            Self::nothing()
        } else {
            self
        }
    }

    /// Puts a run down for `worktree`, in place of one that waited before.
    pub fn set(&mut self, worktree: PathBuf, cwd: PathBuf, command: Vec<String>)
        ensures
            *final(self) == Self::waiting(worktree, cwd, command),
    {
        self.0 = Some(PendingRun { worktree, cwd, command });
    }

    /// Drops a run that waits.
    pub fn clear(&mut self)
        ensures
            *final(self) == Self::nothing(),
    {
        self.0 = None;
    }

    /// Takes the run, and only when it was meant for `root`: a workspace opened
    /// for any other reason must not inherit it. Destructive, so a run can fire
    /// at most once.
    pub fn take_for(&mut self, root: &PathBuf) -> (taken: Option<(PathBuf, Vec<String>)>)
        ensures
            taken == old(self).handed_to(*root),
            *final(self) == old(self).after_handing_to(*root),
    {
        let meant = match &self.0 {
            Some(run) => run.worktree == *root,
            None => false,
        };
        if !meant {
            return None;
        }
        match self.0.take() {
            Some(run) => Some((run.cwd, run.command)),
            None => None,
        }
    }
}

/// A workspace opened for another worktree is handed nothing, and the run goes
/// on waiting for the one it is meant for.
pub proof fn law_run_is_refused_elsewhere(
    worktree: PathBuf,
    cwd: PathBuf,
    command: Vec<String>,
    other: PathBuf,
    root: PathBuf,
)
    requires
        !same_path(worktree, other),
        same_path(worktree, root),
    ensures
        PendingAgentRun::waiting(worktree, cwd, command).handed_to(other) is None,
        PendingAgentRun::waiting(worktree, cwd, command).after_handing_to(other).handed_to(root)
            == Some((cwd, command)),
{
}

/// How many of the workspaces that ask in turn are handed a run.
pub open spec fn runs_handed_out(pending: PendingAgentRun, roots: Seq<PathBuf>) -> nat
    decreases roots.len(),
{
    if roots.len() == 0 {
        0
    } else {
        let first: nat = if pending.handed_to(roots[0]) is Some {
            1
        } else {
            0
        };
        first + runs_handed_out(pending.after_handing_to(roots[0]), roots.drop_first())
    }
}

/// However many workspaces ask, whatever their roots, a run fires at most once.
pub proof fn law_run_fires_at_most_once(pending: PendingAgentRun, roots: Seq<PathBuf>)
    ensures
        runs_handed_out(pending, roots) <= 1,
        pending == PendingAgentRun::nothing() ==> runs_handed_out(pending, roots) == 0,
    decreases roots.len(),
{
    if roots.len() > 0 {
        law_run_fires_at_most_once(pending.after_handing_to(roots[0]), roots.drop_first());
    }
}

/// Once cleared, a run left behind is handed to nobody, however many ask.
pub proof fn law_clearing_drops_the_run(roots: Seq<PathBuf>)
    ensures
        runs_handed_out(PendingAgentRun::nothing(), roots) == 0,
{
    law_run_fires_at_most_once(PendingAgentRun::nothing(), roots);
}

/// A waiting run is handed over whole to the workspace whose root has the
/// components of the run's worktree, and is gone then; any other workspace gets
/// nothing and changes nothing.
pub proof fn law_a_run_is_handed_over_whole(pending: PendingAgentRun, root: PathBuf)
    ensures
        match pending.0 {
            Some(run) => if components(raw(run.worktree)) == components(raw(root)) {
                &&& pending.handed_to(root) == Some((run.cwd, run.command))
                &&& pending.after_handing_to(root).0 is None
            } else {
                &&& pending.handed_to(root) is None
                &&& pending.after_handing_to(root) == pending
            },
            None => pending.handed_to(root) is None && pending.after_handing_to(root).0 is None,
        },
{
}

/// A run put down waits as it was put down, and nothing waits once it is
/// cleared.
pub proof fn law_a_run_waits_as_it_was_put_down(
    worktree: PathBuf,
    cwd: PathBuf,
    command: Vec<String>,
)
    ensures
        PendingAgentRun::waiting(worktree, cwd, command).0 matches Some(run) && run.worktree
            == worktree && run.cwd == cwd && run.command == command,
        PendingAgentRun::nothing().0 is None,
{
}

} // verus!
