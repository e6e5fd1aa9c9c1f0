//! What a single row offers and starts.

use crate::model::{RowKind, SessionKind};
use crate::text::{text_of, text_of_ref};
use vstd::prelude::*;

verus! {

/// What a right-click offers on a row.
#[derive(Debug, Clone, Copy, PartialEq, Eq, Structural)]
pub enum RowAction {
    RemoveWorktree,
    DeleteSession,
}

/// What a row of this kind offers. Removing a worktree deletes its directory,
/// so it is withheld where it would be refused anyway: the main worktree, and
/// any worktree holding work that git will not throw away.
pub open spec fn offered(kind: RowKind, is_main_root: bool, is_dirty: bool) -> Option<RowAction> {
    match kind {
        RowKind::Worktree => if is_main_root || is_dirty {
            None
        } else {
            Some(RowAction::RemoveWorktree)
        },
        RowKind::Session | RowKind::Orphan => Some(RowAction::DeleteSession),
        RowKind::Orphans | RowKind::More => None,
    }
}

/// What a right-click offers on a row.
pub fn menu_action_for_row(kind: RowKind, is_main_root: bool, is_dirty: bool) -> (action: Option<
    RowAction,
>)
    ensures
        action == offered(kind, is_main_root, is_dirty),
{
    match kind {
        RowKind::Worktree => {
            if is_main_root || is_dirty {
                None
            } else {
                Some(RowAction::RemoveWorktree)
            }
        },
        RowKind::Session => Some(RowAction::DeleteSession),
        RowKind::Orphan => Some(RowAction::DeleteSession),
        RowKind::Orphans => None,
        RowKind::More => None,
    }
}

/// Which agent is run, and which session it resumes.
pub open spec fn agent_choice(
    binding: Option<(Seq<char>, Seq<char>, SessionKind)>,
    active_agent: Option<Seq<char>>,
) -> Option<(Seq<char>, Option<Seq<char>>)> {
    match binding {
        Some((agent, session, kind)) => if kind == SessionKind::Live {
            None
        } else {
            Some((agent, Some(session)))
        },
        None => match active_agent {
            Some(agent) => Some((agent, None)),
            None => None,
        },
    }
}

/// What a binding reads as.
pub open spec fn binding_view(binding: Option<(&str, &str, SessionKind)>) -> Option<
    (Seq<char>, Seq<char>, SessionKind),
> {
    match binding {
        Some((agent, session, kind)) => Some((agent@, session@, kind)),
        None => None,
    }
}

/// What a choice reads as.
pub open spec fn choice_view(choice: Option<(String, Option<String>)>) -> Option<
    (Seq<char>, Option<Seq<char>>),
> {
    match choice {
        Some((agent, resume)) => Some((agent@, text_of(resume))),
        None => None,
    }
}

/// Which agent a row runs, and which session it resumes. A row bound to a
/// session resumes that session's own agent; an unbound row starts a fresh
/// session on whichever agent is active. With no agent installed a row only
/// switches worktrees.
///
/// A live session is already running and cannot be resumed: for a row bound to
/// one, no agent is run.
pub fn agent_for_row(
    binding: Option<(&str, &str, SessionKind)>,
    active_agent: Option<&str>,
) -> (choice: Option<(String, Option<String>)>)
    ensures
        choice_view(choice) == agent_choice(binding_view(binding), text_of_ref(active_agent)),
{
    match binding {
        Some((agent, session, kind)) => match kind {
            SessionKind::Live => None,
            SessionKind::Resumable => Some((agent.to_string(), Some(session.to_string()))),
        },
        None => match active_agent {
            Some(agent) => Some((agent.to_string(), None)),
            None => None,
        },
    }
}

/// Removal is offered on a worktree that is neither the main one nor dirty,
/// and on nothing else.
pub proof fn law_removal_is_offered_only_where_it_succeeds(
    kind: RowKind,
    is_main_root: bool,
    is_dirty: bool,
)
    ensures
        offered(kind, is_main_root, is_dirty) == Some(RowAction::RemoveWorktree) <==> kind
            == RowKind::Worktree && !is_main_root && !is_dirty,
{
}

/// Deletion is offered on the rows of sessions, whatever the state of the
/// worktree, and on nothing else.
pub proof fn law_deletion_is_offered_on_sessions(
    kind: RowKind,
    is_main_root: bool,
    is_dirty: bool,
)
    ensures
        offered(kind, is_main_root, is_dirty) == Some(RowAction::DeleteSession) <==> kind
            == RowKind::Session || kind == RowKind::Orphan,
{
}

/// No session is resumed that is live, and what is resumed is resumed by the
/// session's own agent, whichever is active.
pub proof fn law_a_bound_row_resumes_its_own_agent(
    agent: Seq<char>,
    session: Seq<char>,
    kind: SessionKind,
    active_agent: Option<Seq<char>>,
)
    ensures
        agent_choice(Some((agent, session, kind)), active_agent) is None <==> kind
            == SessionKind::Live,
        kind != SessionKind::Live ==> agent_choice(Some((agent, session, kind)), active_agent)
            == Some((agent, Some(session))),
{
}

/// An unbound row starts the active agent afresh, and nothing where no agent is
/// active.
pub proof fn law_an_unbound_row_starts_the_active_agent(active_agent: Option<Seq<char>>)
    ensures
        agent_choice(None, active_agent) == (match active_agent {
            Some(agent) => Some((agent, None::<Seq<char>>)),
            None => None,
        }),
{
}

/// What is run for a row, in full: nothing for a live session, the session's own
/// agent resuming it for any other, and for a row that is bound to none the
/// active agent afresh, where there is one.
pub proof fn law_a_row_runs_its_own_agent(
    binding: Option<(&str, &str, SessionKind)>,
    active_agent: Option<&str>,
    choice: Option<(String, Option<String>)>,
)
    requires
        choice_view(choice) == agent_choice(binding_view(binding), text_of_ref(active_agent)),
    ensures
        match binding {
            Some((agent, session, SessionKind::Live)) => choice is None,
            Some((agent, session, SessionKind::Resumable)) => choice matches Some((run, resume))
                && run@ == agent@ && (resume matches Some(resumed) && resumed@ == session@),
            None => match active_agent {
                Some(agent) => choice matches Some((run, resume)) && run@ == agent@ && resume
                    is None,
                None => choice is None,
            },
        },
{
}

} // verus!
