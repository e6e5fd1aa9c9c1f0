//! What a click on a row does, one reply of the outside world at a time.
//!
//! A click asks the service to open the row's worktree, and to run an agent
//! there where the row has one to run. The service puts both to its host, and
//! once they are queued the panel decides where they lead: to a terminal of the
//! workspace already open, or to a switch to another one.

use crate::host::{queue_poisoned_text, HostError, HostRequest};
use crate::model::{NodeId, Row, RowKind, Session, SessionKind};
use crate::panel::{RefreshRequest, ZrushPanel};
use crate::path::{
    components, display_text, file_name, file_name_bytes, law_a_unicode_path_is_written_as_it_stands,
    lossy_text, raw, same_path, to_string_lossy,
};
use crate::pending::{PendingAgentRun, PendingRun};
use crate::row::{agent_choice, agent_for_row};
use crate::terminal::{plan_terminal, task_id_text, TaskId, TerminalPlan};
use crate::text::{text_of, text_of_ref, texts};
use std::path::PathBuf;
use vstd::prelude::*;
use vstd::utf8::*;

verus! {

/// A session that a row is bound to, and the agent it is a session of.
#[derive(Debug, PartialEq, Eq)]
pub struct Binding {
    pub agent: String,
    pub session: String,
    pub kind: SessionKind,
}

/// A worktree to open, and the session its row is bound to.
#[derive(Debug, PartialEq, Eq)]
pub struct Opening {
    pub path: PathBuf,
    pub binding: Option<Binding>,
}

impl Opening {
    /// The agent and the session that the worktree is opened with.
    pub fn open_binding(&self) -> (binding: Option<(&str, &str)>)
        ensures
            match bound_to(self.binding) {
                Some((agent, session, _)) => binding matches Some(opened) && opened.0@ == agent
                    && opened.1@ == session,
                None => binding is None,
            },
            self.binding matches Some(bound) ==> (binding matches Some(opened) && opened.0@
                == bound.agent@ && opened.1@ == bound.session@),
            self.binding is None ==> binding is None,
    {
        match &self.binding {
            Some(binding) => Some((binding.agent.as_str(), binding.session.as_str())),
            None => None,
        }
    }
}

/// What a click on a row asks for first.
#[derive(Debug)]
pub enum ActivateStep {
    /// Nothing.
    Ignored,
    /// More of the node's sessions are to be shown, which takes a refresh.
    Expanded { refresh: Option<RefreshRequest> },
    /// The service is to open a worktree.
    Open(Opening),
}

/// What follows once the service has tried to open the worktree.
#[derive(Debug, PartialEq, Eq)]
pub enum OpenedStep {
    /// It failed, and the panel says why.
    Failed,
    /// The service is to run an agent, resuming a session or starting afresh.
    Run { agent: String, resume: Option<String> },
    /// Nothing is to be run: see where the host's requests lead.
    Route,
}

/// What follows once the service has tried to run the agent.
#[derive(Debug, Clone, Copy, PartialEq, Eq, Structural)]
pub enum RanStep {
    /// It failed, and the panel says why.
    Failed,
    /// See where the host's requests lead.
    Route,
}

/// Where the host's requests lead.
#[derive(Debug, PartialEq, Eq)]
pub enum RouteStep {
    /// Nowhere, and the panel says why.
    Failed,
    /// There is nothing left to do.
    Done,
    /// The command runs in the workspace that is open.
    RunHere { cwd: PathBuf, command: Vec<String> },
    /// The workspace is switched to another worktree.
    Switch { path: PathBuf, display_name: String },
}

/// What a binding reads as: agent, session and kind.
pub open spec fn bound_to(binding: Option<Binding>) -> Option<(Seq<char>, Seq<char>, SessionKind)> {
    match binding {
        Some(binding) => Some((binding.agent@, binding.session@, binding.kind)),
        None => None,
    }
}

/// The first session with this identity.
pub open spec fn session_with(sessions: Seq<Session>, id: Seq<char>) -> Option<Session>
    decreases sessions.len(),
{
    if sessions.len() == 0 {
        None
    } else if sessions[0].id@ == id {
        Some(sessions[0])
    } else {
        session_with(sessions.drop_first(), id)
    }
}

/// The session that a row is bound to, if the panel knows it.
pub open spec fn session_of(sessions: Seq<Session>, session_id: Option<String>) -> Option<Session> {
    match session_id {
        Some(id) => session_with(sessions, id@),
        None => None,
    }
}

/// What a session binds a row to.
pub open spec fn binding_of(session: Option<Session>) -> Option<
    (Seq<char>, Seq<char>, SessionKind),
> {
    match session {
        Some(session) => Some((session.agent@, session.id@, session.kind)),
        None => None,
    }
}

impl ActivateStep {
    /// Whether this is what a click on `row` of `panel` asks for.
    pub open spec fn answers(self, panel: ZrushPanel, row: Row) -> bool {
        if row.kind == RowKind::More {
            self is Expanded
        } else {
            match (panel.service, row.node) {
                (Some(_), NodeId::Worktree(path)) => self matches ActivateStep::Open(opening)
                    && opening.path == path && bound_to(opening.binding) == binding_of(
                    session_of(panel.sessions@, row.session_id),
                ),
                _ => self == ActivateStep::Ignored,
            }
        }
    }
}

impl OpenedStep {
    /// Whether this is what follows a worktree opened for a row with `binding`
    /// while `active_agent` is active.
    pub open spec fn follows(
        self,
        binding: Option<(Seq<char>, Seq<char>, SessionKind)>,
        active_agent: Option<Seq<char>>,
    ) -> bool {
        match agent_choice(binding, active_agent) {
            Some((chosen, resumed)) => self matches OpenedStep::Run { agent, resume } && agent@
                == chosen && text_of(resume) == resumed,
            None => self == OpenedStep::Route,
        }
    }
}

/// The workspace asked for last.
pub open spec fn last_opened(requests: Seq<HostRequest>) -> Option<PathBuf>
    decreases requests.len(),
{
    if requests.len() == 0 {
        None
    } else {
        match requests.last() {
            HostRequest::OpenWorkspace(path) => Some(path),
            HostRequest::RunAgent { .. } => last_opened(requests.drop_last()),
        }
    }
}

/// The command asked for last, with the directory it runs in.
pub open spec fn last_run(requests: Seq<HostRequest>) -> Option<(PathBuf, Vec<String>)>
    decreases requests.len(),
{
    if requests.len() == 0 {
        None
    } else {
        match requests.last() {
            HostRequest::RunAgent { cwd, command } => Some((cwd, command)),
            HostRequest::OpenWorkspace(_) => last_run(requests.drop_last()),
        }
    }
}

/// Whether a worktree is among the roots of the workspace.
pub open spec fn is_open(roots: Seq<PathBuf>, path: PathBuf) -> bool {
    exists|i: int| 0 <= i < roots.len() && same_path(#[trigger] roots[i], path)
}

/// The worktree that the workspace has to be switched to, where it is not open
/// already: a switch tears the workspace down and would take the agent's
/// terminal with it.
pub open spec fn switch_target(requests: Seq<HostRequest>, roots: Seq<PathBuf>) -> Option<PathBuf> {
    match last_opened(requests) {
        Some(path) => if is_open(roots, path) {
            None
        } else {
            Some(path)
        },
        None => None,
    }
}

/// What a worktree is called: the name its path ends in, else the whole path.
pub open spec fn display_name_text(bytes: Seq<u8>) -> Seq<char> {
    match file_name_bytes(bytes) {
        Some(name) => lossy_text(name),
        None => lossy_text(bytes),
    }
}

impl RouteStep {
    /// Whether this is where `requests` lead while `roots` are open.
    pub open spec fn leads(self, requests: Seq<HostRequest>, roots: Seq<PathBuf>) -> bool {
        match switch_target(requests, roots) {
            Some(target) => self matches RouteStep::Switch { path, display_name } && path == target
                && display_name@ == display_name_text(raw(target)),
            None => match last_run(requests) {
                Some((cwd, command)) => self == (RouteStep::RunHere { cwd, command }),
                None => self == RouteStep::Done,
            },
        }
    }
}

/// The run that waits once `requests` have been routed while `roots` are open:
/// the terminal belongs to the workspace, and switching replaces it, so a run
/// that goes with a switch is left to the workspace being built.
pub open spec fn left_waiting(
    requests: Seq<HostRequest>,
    roots: Seq<PathBuf>,
) -> PendingAgentRun {
    match (switch_target(requests, roots), last_run(requests)) {
        (Some(target), Some((cwd, command))) => PendingAgentRun::waiting(target, cwd, command),
        _ => PendingAgentRun::nothing(),
    }
}

pub open spec fn workspace_gone_text() -> Seq<char> {
    "Zed workspace is no longer available"@
}

pub open spec fn empty_command_text() -> Seq<char> {
    "agent returned an empty command"@
}

pub open spec fn no_center_pane_text() -> Seq<char> {
    "Zed has no center pane to open the agent terminal in"@
}

/// The place of the first session with this identity.
pub fn find_session(sessions: &Vec<Session>, id: &String) -> (found: Option<usize>)
    ensures
        match found {
            Some(at) => at < sessions@.len() && session_with(sessions@, id@) == Some(
                sessions@[at as int],
            ) && sessions@[at as int].id@ == id@,
            None => session_with(sessions@, id@) is None,
        },
        found matches Some(at) ==> forall|i: int|
            0 <= i < at ==> (#[trigger] sessions@[i]).id@ != id@,
        found is None ==> forall|i: int|
            0 <= i < sessions@.len() ==> (#[trigger] sessions@[i]).id@ != id@,
{
    let mut at: usize = 0;
    assert(sessions@.skip(0) =~= sessions@);
    while at < sessions.len()
        invariant
            at <= sessions@.len(),
            session_with(sessions@, id@) == session_with(sessions@.skip(at as int), id@),
            forall|i: int| 0 <= i < at ==> (#[trigger] sessions@[i]).id@ != id@,
        decreases sessions@.len() - at,
    {
        if sessions[at].id == *id {
            return Some(at);
        }
        assert(sessions@.skip(at as int).drop_first() =~= sessions@.skip(at + 1));
        at += 1;
    }
    None
}

/// What a worktree is called, given the name its path ends in and the whole
/// path, each as text.
pub fn choose_display_name(name: Option<String>, whole: String) -> (chosen: String)
    ensures
        chosen == (match name {
            Some(name) => name,
            None => whole,
        }),
{
    match name {
        Some(name) => name,
        None => whole,
    }
}

/// What the worktree at `path` is called.
pub fn display_name(path: &PathBuf) -> (name: String)
    ensures
        name@ == display_name_text(raw(*path)),
{
    let name = match file_name(path) {
        Some(name) => Some(to_string_lossy(&name)),
        None => None,
    };
    choose_display_name(name, to_string_lossy(path))
}

/// Whether `path` is among the roots of the workspace.
fn among(roots: &Vec<PathBuf>, path: &PathBuf) -> (found: bool)
    ensures
        found == is_open(roots@, *path),
{
    let mut at: usize = 0;
    while at < roots.len()
        invariant
            at <= roots@.len(),
            forall|i: int| 0 <= i < at ==> !same_path(#[trigger] roots@[i], *path),
        decreases roots@.len() - at,
    {
        if roots[at] == *path {
            assert(same_path(roots@[at as int], *path));
            return true;
        }
        at += 1;
    }
    false
}

/// The workspace asked for last, and the command asked for last.
pub fn last_requests(requests: Vec<HostRequest>) -> (last: (
    Option<PathBuf>,
    Option<(PathBuf, Vec<String>)>,
))
    ensures
        last.0 == last_opened(requests@),
        last.1 == last_run(requests@),
{
    let mut left = requests;
    let mut opened: Option<PathBuf> = None;
    let mut run: Option<(PathBuf, Vec<String>)> = None;
    while left.len() > 0
        invariant
            last_opened(requests@) == (if opened is Some {
                opened
            } else {
                last_opened(left@)
            }),
            last_run(requests@) == (if run is Some {
                run
            } else {
                last_run(left@)
            }),
        decreases left@.len(),
    {
        let ghost before = left@;
        let request = left.pop();
        assert(left@ =~= before.drop_last());
        match request {
            Some(HostRequest::OpenWorkspace(path)) => {
                if opened.is_none() {
                    opened = Some(path);
                }
            },
            Some(HostRequest::RunAgent { cwd, command }) => {
                if run.is_none() {
                    run = Some((cwd, command));
                }
            },
            None => {},
        }
    }
    (opened, run)
}

impl ZrushPanel {
    /// What a click on `row` asks for first.
    pub fn activate_row(&mut self, row: &Row) -> (step: ActivateStep)
        requires
            row.kind == RowKind::More ==> old(self).shown_of(row.node@) + old(self).more_step()
                <= usize::MAX,
        ensures
            step.answers(*old(self), *row),
            if row.kind == RowKind::More {
                &&& final(self).shows_more_of(*old(self), row.node@)
                &&& step matches ActivateStep::Expanded { refresh } && final(self).asks_for(refresh)
            } else {
                *final(self) == *old(self)
            },
    {
        if row.kind == RowKind::More {
            return ActivateStep::Expanded { refresh: self.expand_more(row) };
        }
        if self.service.is_none() {
            return ActivateStep::Ignored;
        }
        let path = match &row.node {
            NodeId::Worktree(path) => path.clone(),
            NodeId::Orphans => return ActivateStep::Ignored,
        };
        let found = match &row.session_id {
            Some(id) => find_session(&self.sessions, id),
            None => None,
        };
        let binding = match found {
            Some(at) => Some(
                Binding {
                    agent: self.sessions[at].agent.clone(),
                    session: self.sessions[at].id.clone(),
                    kind: self.sessions[at].kind,
                },
            ),
            None => None,
        };
        ActivateStep::Open(Opening { path, binding })
    }

    /// What follows once the service has tried to open the worktree, given the
    /// agent that is active.
    pub fn opened(
        &mut self,
        opening: &Opening,
        reply: Result<(), String>,
        active_agent: Option<&str>,
    ) -> (step: OpenedStep)
        ensures
            match reply {
                Ok(_) => {
                    &&& *final(self) == *old(self)
                    &&& step.follows(bound_to(opening.binding), text_of_ref(active_agent))
                },
                Err(message) => {
                    &&& step == OpenedStep::Failed
                    &&& *final(self) == (ZrushPanel { error: Some(message), ..*old(self) })
                },
            },
    {
        if let Err(message) = reply {
            self.error = Some(message);
            return OpenedStep::Failed;
        }
        let choice = match &opening.binding {
            Some(binding) => agent_for_row(
                Some((binding.agent.as_str(), binding.session.as_str(), binding.kind)),
                active_agent,
            ),
            None => agent_for_row(None, active_agent),
        };
        match choice {
            Some((agent, resume)) => OpenedStep::Run { agent, resume },
            None => OpenedStep::Route,
        }
    }

    /// What follows once the service has tried to run the agent.
    pub fn ran(&mut self, reply: Result<(), String>) -> (step: RanStep)
        ensures
            match reply {
                Ok(_) => step == RanStep::Route && *final(self) == *old(self),
                Err(message) => {
                    &&& step == RanStep::Failed
                    &&& *final(self) == (ZrushPanel { error: Some(message), ..*old(self) })
                },
            },
    {
        match reply {
            Ok(_) => RanStep::Route,
            Err(message) => {
                self.error = Some(message);
                RanStep::Failed
            },
        }
    }

    /// Where the host's requests lead. A run that an earlier click left waiting
    /// is dropped first. `roots` are the roots of the workspace the panel sits
    /// in, where that is still there.
    pub fn route(
        &mut self,
        pending: &mut PendingAgentRun,
        drained: Result<Vec<HostRequest>, HostError>,
        roots: Option<Vec<PathBuf>>,
    ) -> (step: RouteStep)
        ensures
            match (drained, roots) {
                (Err(_), _) => {
                    &&& step == RouteStep::Failed
                    &&& final(self).reports(*old(self), queue_poisoned_text())
                    &&& *final(pending) == PendingAgentRun::nothing()
                },
                (Ok(_), None) => {
                    &&& step == RouteStep::Failed
                    &&& final(self).reports(*old(self), workspace_gone_text())
                    &&& *final(pending) == PendingAgentRun::nothing()
                },
                (Ok(requests), Some(roots)) => {
                    &&& step.leads(requests@, roots@)
                    &&& *final(self) == *old(self)
                    &&& *final(pending) == left_waiting(requests@, roots@)
                },
            },
    {
        pending.clear();
        let requests = match drained {
            Ok(requests) => requests,
            Err(error) => {
                self.error = Some(error.message());
                return RouteStep::Failed;
            },
        };
        let (opened, run) = last_requests(requests);
        let roots = match roots {
            Some(roots) => roots,
            None => {
                self.error = Some("Zed workspace is no longer available".to_string());
                return RouteStep::Failed;
            },
        };
        let target = match opened {
            Some(path) => {
                if among(&roots, &path) {
                    None
                } else {
                    Some(path)
                }
            },
            None => None,
        };
        match target {
            Some(target) => {
                let name = display_name(&target);
                if let Some((cwd, command)) = run {
                    pending.set(target.clone(), cwd, command);
                }
                RouteStep::Switch { path: target, display_name: name }
            },
            None => match run {
                Some((cwd, command)) => RouteStep::RunHere { cwd, command },
                None => RouteStep::Done,
            },
        }
    }

    /// How the terminal for `command` in `cwd` is brought up while `terminals`
    /// are open in the workspace.
    pub fn spawn_agent_terminal(
        &mut self,
        cwd: PathBuf,
        command: Vec<String>,
        terminals: &Vec<Option<TaskId>>,
    ) -> (plan: TerminalPlan)
        ensures
            plan.brings_up(
                task_id_text(display_text(raw(cwd)), texts(command@)),
                cwd,
                command@,
                terminals@,
            ),
            if command@.len() == 0 {
                final(self).reports(*old(self), empty_command_text())
            } else {
                *final(self) == *old(self)
            },
    {
        if command.len() == 0 {
            self.error = Some("agent returned an empty command".to_string());
        }
        plan_terminal(cwd, command, terminals)
    }

    /// Takes in what became of a spawned terminal: whether it found a place in
    /// the center, or why it could not be made.
    pub fn terminal_spawned(&mut self, placed: Result<bool, String>)
        ensures
            match placed {
                Ok(placed) => if placed {
                    *final(self) == *old(self)
                } else {
                    final(self).reports(*old(self), no_center_pane_text())
                },
                Err(message) => *final(self) == (ZrushPanel {
                    error: Some(message),
                    ..*old(self)
                }),
            },
    {
        match placed {
            Ok(placed) => {
                if !placed {
                    self.error = Some(
                        "Zed has no center pane to open the agent terminal in".to_string(),
                    );
                }
            },
            Err(message) => {
                self.error = Some(message);
            },
        }
    }
}

/// A click on a row of a live session opens its worktree and runs nothing: the
/// session is never resumed.
pub proof fn law_a_live_session_is_never_resumed(
    panel: ZrushPanel,
    row: Row,
    first: ActivateStep,
    next: OpenedStep,
    active_agent: Option<Seq<char>>,
)
    requires
        first.answers(panel, row),
        first matches ActivateStep::Open(opening) && next.follows(
            bound_to(opening.binding),
            active_agent,
        ),
        session_of(panel.sessions@, row.session_id) matches Some(session) && session.kind
            == SessionKind::Live,
    ensures
        next == OpenedStep::Route,
{
}

/// A click on a row bound to a session that is not live resumes that session
/// with its own agent, whichever agent is active.
pub proof fn law_a_bound_row_resumes_its_session(
    panel: ZrushPanel,
    row: Row,
    session: Session,
    first: ActivateStep,
    next: OpenedStep,
    active_agent: Option<Seq<char>>,
)
    requires
        first.answers(panel, row),
        first matches ActivateStep::Open(opening) && next.follows(
            bound_to(opening.binding),
            active_agent,
        ),
        session_of(panel.sessions@, row.session_id) == Some(session),
        session.kind != SessionKind::Live,
    ensures
        next matches OpenedStep::Run { agent, resume } && agent@ == session.agent@ && text_of(
            resume,
        ) == Some(session.id@),
        row.session_id matches Some(id) && session.id@ == id@,
{
    lemma_session_has_the_id(panel.sessions@, row.session_id->0@);
}

proof fn lemma_session_has_the_id(sessions: Seq<Session>, id: Seq<char>)
    ensures
        session_with(sessions, id) matches Some(session) ==> session.id@ == id,
    decreases sessions.len(),
{
    if sessions.len() > 0 {
        lemma_session_has_the_id(sessions.drop_first(), id);
    }
}

/// The workspace is never switched to a worktree that is already open, however
/// its path is spelled.
pub proof fn law_an_open_worktree_is_not_switched_to(
    step: RouteStep,
    requests: Seq<HostRequest>,
    roots: Seq<PathBuf>,
    at: int,
)
    requires
        step.leads(requests, roots),
        0 <= at < roots.len(),
    ensures
        step matches RouteStep::Switch { path, .. } ==> !same_path(roots[at], path),
{
}

/// The run asked for last either starts in the workspace that is open, and
/// nothing waits, or waits for the worktree that is switched to. Where none was
/// asked for, none starts and none waits.
pub proof fn law_a_run_starts_here_or_waits(
    step: RouteStep,
    requests: Seq<HostRequest>,
    roots: Seq<PathBuf>,
)
    requires
        step.leads(requests, roots),
    ensures
        match last_run(requests) {
            Some((cwd, command)) => match step {
                RouteStep::RunHere { cwd: here, command: started } => here == cwd && started
                    == command && left_waiting(requests, roots) == PendingAgentRun::nothing(),
                RouteStep::Switch { path, .. } => left_waiting(requests, roots)
                    == PendingAgentRun::waiting(path, cwd, command),
                _ => false,
            },
            None => step !is RunHere && left_waiting(requests, roots)
                == PendingAgentRun::nothing(),
        },
{
}

/// A run that goes with a switch is handed to the workspace the switch builds,
/// and to no other.
pub proof fn law_a_switch_hands_the_run_over(
    step: RouteStep,
    requests: Seq<HostRequest>,
    roots: Seq<PathBuf>,
    root: PathBuf,
)
    requires
        step.leads(requests, roots),
    ensures
        step matches RouteStep::Switch { path, .. } ==> left_waiting(requests, roots).handed_to(
            root,
        ) == (if same_path(path, root) {
            last_run(requests)
        } else {
            None
        }),
{
}

/// The worktree a click opens counts, and so does the run it asks for, whatever
/// an earlier click that failed half-way has left in the queue.
pub proof fn law_the_latest_click_counts(
    left_behind: Seq<HostRequest>,
    path: PathBuf,
    cwd: PathBuf,
    command: Vec<String>,
)
    ensures
        last_opened(left_behind.push(HostRequest::OpenWorkspace(path))) == Some(path),
        ({
            let requests = left_behind.push(HostRequest::OpenWorkspace(path)).push(
                HostRequest::RunAgent { cwd, command },
            );
            last_opened(requests) == Some(path) && last_run(requests) == Some((cwd, command))
        }),
{
    let opened = left_behind.push(HostRequest::OpenWorkspace(path));
    let requests = opened.push(HostRequest::RunAgent { cwd, command });
    assert(requests.drop_last() =~= opened);
    assert(last_opened(requests) == last_opened(opened));
}

/// A session that is in the list is found by its identity, wherever it stands and
/// whatever stands before it: the first that has the identity.
pub proof fn law_a_session_that_is_there_is_found(
    sessions: Seq<Session>,
    id: Seq<char>,
    at: int,
)
    requires
        0 <= at < sessions.len(),
        sessions[at].id@ == id,
        forall|i: int| 0 <= i < at ==> (#[trigger] sessions[i]).id@ != id,
    ensures
        session_with(sessions, id) == Some(sessions[at]),
    decreases sessions.len(),
{
    if at > 0 {
        assert(sessions[0].id@ != id);
        let rest = sessions.drop_first();
        assert forall|i: int| 0 <= i < at - 1 implies (#[trigger] rest[i]).id@ != id by {
            assert(rest[i] == sessions[i + 1]);
        }
        law_a_session_that_is_there_is_found(rest, id, at - 1);
    }
}

/// No session is found by an identity that none in the list has.
pub proof fn law_a_session_that_is_not_there_is_not_found(sessions: Seq<Session>, id: Seq<char>)
    requires
        forall|i: int| 0 <= i < sessions.len() ==> (#[trigger] sessions[i]).id@ != id,
    ensures
        session_with(sessions, id) is None,
    decreases sessions.len(),
{
    if sessions.len() > 0 {
        assert(sessions[0].id@ != id);
        let rest = sessions.drop_first();
        assert forall|i: int| 0 <= i < rest.len() implies (#[trigger] rest[i]).id@ != id by {
            assert(rest[i] == sessions[i + 1]);
        }
        law_a_session_that_is_not_there_is_not_found(rest, id);
    }
}

/// A click on a row of a worktree opens that worktree, and with it the first
/// session that has the row's session identity: its agent, its identity and its
/// kind.
pub proof fn law_a_click_opens_with_the_rows_session(
    panel: ZrushPanel,
    row: Row,
    step: ActivateStep,
    path: PathBuf,
    id: String,
    at: int,
)
    requires
        step.answers(panel, row),
        row.kind != RowKind::More,
        row.node == NodeId::Worktree(path),
        panel.service is Some,
        row.session_id == Some(id),
        0 <= at < panel.sessions@.len(),
        panel.sessions@[at].id@ == id@,
        forall|i: int| 0 <= i < at ==> (#[trigger] panel.sessions@[i]).id@ != id@,
    ensures
        step matches ActivateStep::Open(opening) && opening.path == path && (
        opening.binding matches Some(bound) && bound.agent@ == panel.sessions@[at].agent@
            && bound.session@ == id@ && bound.kind == panel.sessions@[at].kind),
{
    law_a_session_that_is_there_is_found(panel.sessions@, id@, at);
}

/// A click on a row of a worktree whose session the panel does not know, or that
/// has none, opens that worktree with no session.
pub proof fn law_a_click_without_a_session_opens_the_worktree_alone(
    panel: ZrushPanel,
    row: Row,
    step: ActivateStep,
    path: PathBuf,
)
    requires
        step.answers(panel, row),
        row.kind != RowKind::More,
        row.node == NodeId::Worktree(path),
        panel.service is Some,
        row.session_id matches Some(id) ==> forall|i: int|
            0 <= i < panel.sessions@.len() ==> (#[trigger] panel.sessions@[i]).id@ != id@,
    ensures
        step matches ActivateStep::Open(opening) && opening.path == path && opening.binding is None,
{
    if let Some(id) = row.session_id {
        law_a_session_that_is_not_there_is_not_found(panel.sessions@, id@);
    }
}

/// A click on a row that shows more expands its node. Any other click is ignored
/// where there is no service or the row belongs to no worktree.
pub proof fn law_a_click_expands_or_is_ignored(panel: ZrushPanel, row: Row, step: ActivateStep)
    requires
        step.answers(panel, row),
    ensures
        step is Expanded <==> row.kind == RowKind::More,
        step is Ignored <==> row.kind != RowKind::More && (panel.service is None || row.node
            is Orphans),
{
}

/// What follows an opened worktree, in full: a live session is left alone, any
/// other is resumed by its own agent, and without a session the active agent is
/// started afresh, where there is one.
pub proof fn law_an_opened_worktree_runs_its_own_agent(
    opening: Opening,
    active_agent: Option<&str>,
    next: OpenedStep,
)
    requires
        next.follows(bound_to(opening.binding), text_of_ref(active_agent)),
    ensures
        match opening.binding {
            Some(bound) => if bound.kind == SessionKind::Live {
                next == OpenedStep::Route
            } else {
                next matches OpenedStep::Run { agent, resume } && agent@ == bound.agent@ && (
                resume matches Some(resumed) && resumed@ == bound.session@)
            },
            None => match active_agent {
                Some(active) => next matches OpenedStep::Run { agent, resume } && agent@ == active@
                    && resume is None,
                None => next == OpenedStep::Route,
            },
        },
{
}

/// Of the workspaces asked for the last counts, whatever else is asked for
/// before, between and after.
pub proof fn law_the_last_workspace_asked_for_counts(
    requests: Seq<HostRequest>,
    at: int,
    path: PathBuf,
)
    requires
        0 <= at < requests.len(),
        requests[at] == HostRequest::OpenWorkspace(path),
        forall|i: int| at < i < requests.len() ==> !(#[trigger] requests[i] is OpenWorkspace),
    ensures
        last_opened(requests) == Some(path),
    decreases requests.len(),
{
    assert(requests[requests.len() - 1] == requests.last());
    if at < requests.len() - 1 {
        let before = requests.drop_last();
        assert forall|i: int| at < i < before.len() implies !(
        #[trigger] before[i] is OpenWorkspace) by {
            assert(before[i] == requests[i]);
        }
        law_the_last_workspace_asked_for_counts(before, at, path);
    }
}

/// Of the commands asked for the last counts, whatever else is asked for before,
/// between and after.
pub proof fn law_the_last_command_asked_for_counts(
    requests: Seq<HostRequest>,
    at: int,
    cwd: PathBuf,
    command: Vec<String>,
)
    requires
        0 <= at < requests.len(),
        requests[at] == (HostRequest::RunAgent { cwd, command }),
        forall|i: int| at < i < requests.len() ==> !(#[trigger] requests[i] is RunAgent),
    ensures
        last_run(requests) == Some((cwd, command)),
    decreases requests.len(),
{
    assert(requests[requests.len() - 1] == requests.last());
    if at < requests.len() - 1 {
        let before = requests.drop_last();
        assert forall|i: int| at < i < before.len() implies !(#[trigger] before[i] is RunAgent) by {
            assert(before[i] == requests[i]);
        }
        law_the_last_command_asked_for_counts(before, at, cwd, command);
    }
}

/// No workspace counts as asked for that was not, nor does a command.
pub proof fn law_what_was_not_asked_for_does_not_count(requests: Seq<HostRequest>)
    ensures
        (forall|i: int| 0 <= i < requests.len() ==> !(#[trigger] requests[i] is OpenWorkspace))
            ==> last_opened(requests) is None,
        (forall|i: int| 0 <= i < requests.len() ==> !(#[trigger] requests[i] is RunAgent))
            ==> last_run(requests) is None,
    decreases requests.len(),
{
    if requests.len() > 0 {
        let before = requests.drop_last();
        law_what_was_not_asked_for_does_not_count(before);
        assert(requests[requests.len() - 1] == requests.last());
        assert(forall|i: int| 0 <= i < before.len() ==> #[trigger] before[i] == requests[i]);
    }
}

/// Where the workspace asked for last is the same path as none of the roots, it
/// is switched to, whether or not a run was asked for, under the name its path
/// ends in, or the whole path.
pub proof fn law_a_worktree_not_open_is_switched_to(
    step: RouteStep,
    requests: Seq<HostRequest>,
    roots: Seq<PathBuf>,
    at: int,
    path: PathBuf,
)
    requires
        step.leads(requests, roots),
        0 <= at < requests.len(),
        requests[at] == HostRequest::OpenWorkspace(path),
        forall|i: int| at < i < requests.len() ==> !(#[trigger] requests[i] is OpenWorkspace),
        forall|i: int|
            0 <= i < roots.len() ==> components(raw(#[trigger] roots[i])) != components(raw(path)),
    ensures
        step matches RouteStep::Switch { path: target, display_name } && target == path
            && display_name@ == (match file_name_bytes(raw(path)) {
            Some(name) => lossy_text(name),
            None => lossy_text(raw(path)),
        }),
{
    law_the_last_workspace_asked_for_counts(requests, at, path);
}

/// The request that a switch goes back to.
proof fn lemma_an_opening_was_asked_for(requests: Seq<HostRequest>) -> (at: int)
    requires
        last_opened(requests) is Some,
    ensures
        0 <= at < requests.len(),
        requests[at] == HostRequest::OpenWorkspace(last_opened(requests)->0),
        forall|i: int| at < i < requests.len() ==> !(#[trigger] requests[i] is OpenWorkspace),
    decreases requests.len(),
{
    match requests.last() {
        HostRequest::OpenWorkspace(_) => requests.len() - 1,
        HostRequest::RunAgent { .. } => {
            let before = requests.drop_last();
            let at = lemma_an_opening_was_asked_for(before);
            assert forall|i: int| at < i < requests.len() implies !(
            #[trigger] requests[i] is OpenWorkspace) by {
                if i < before.len() {
                    assert(before[i] == requests[i]);
                }
            }
            at
        },
    }
}

/// The workspace is switched only to the worktree asked for last, and only while
/// that is the same path as none of the roots.
pub proof fn law_a_switch_was_asked_for(
    step: RouteStep,
    requests: Seq<HostRequest>,
    roots: Seq<PathBuf>,
)
    requires
        step.leads(requests, roots),
    ensures
        step matches RouteStep::Switch { path, .. } ==> {
            &&& exists|at: int|
                0 <= at < requests.len() && #[trigger] requests[at] == HostRequest::OpenWorkspace(
                    path,
                ) && forall|i: int|
                    at < i < requests.len() ==> !(#[trigger] requests[i] is OpenWorkspace)
            &&& forall|i: int|
                0 <= i < roots.len() ==> components(raw(#[trigger] roots[i])) != components(
                    raw(path),
                )
        },
{
    if let RouteStep::Switch { path, .. } = step {
        let at = lemma_an_opening_was_asked_for(requests);
        assert(requests[at] == HostRequest::OpenWorkspace(path));
        assert forall|i: int| 0 <= i < roots.len() implies components(raw(#[trigger] roots[i]))
            != components(raw(path)) by {
            assert(!same_path(roots[i], path));
        }
    }
}

/// Without a switch the command asked for last starts in the workspace that is
/// open, as it was asked for, and nothing waits.
pub proof fn law_without_a_switch_the_last_command_starts_here(
    step: RouteStep,
    requests: Seq<HostRequest>,
    roots: Seq<PathBuf>,
    at: int,
    cwd: PathBuf,
    command: Vec<String>,
)
    requires
        step.leads(requests, roots),
        !(step is Switch),
        0 <= at < requests.len(),
        requests[at] == (HostRequest::RunAgent { cwd, command }),
        forall|i: int| at < i < requests.len() ==> !(#[trigger] requests[i] is RunAgent),
    ensures
        step == (RouteStep::RunHere { cwd, command }),
        left_waiting(requests, roots).0 is None,
{
    law_the_last_command_asked_for_counts(requests, at, cwd, command);
}

/// With a switch the command asked for last waits for the worktree switched to,
/// as it was asked for.
pub proof fn law_with_a_switch_the_last_command_waits(
    step: RouteStep,
    requests: Seq<HostRequest>,
    roots: Seq<PathBuf>,
    at: int,
    cwd: PathBuf,
    command: Vec<String>,
)
    requires
        step.leads(requests, roots),
        0 <= at < requests.len(),
        requests[at] == (HostRequest::RunAgent { cwd, command }),
        forall|i: int| at < i < requests.len() ==> !(#[trigger] requests[i] is RunAgent),
    ensures
        step matches RouteStep::Switch { path, .. } ==> left_waiting(requests, roots).0 == Some(
            PendingRun { worktree: path, cwd, command },
        ),
{
    law_the_last_command_asked_for_counts(requests, at, cwd, command);
}

/// Where no command was asked for nothing starts and nothing waits: the workspace
/// is switched, or there is nothing left to do.
pub proof fn law_without_a_command_nothing_starts(
    step: RouteStep,
    requests: Seq<HostRequest>,
    roots: Seq<PathBuf>,
)
    requires
        step.leads(requests, roots),
        forall|i: int| 0 <= i < requests.len() ==> !(#[trigger] requests[i] is RunAgent),
    ensures
        step is Switch || step == RouteStep::Done,
        left_waiting(requests, roots).0 is None,
{
    law_what_was_not_asked_for_does_not_count(requests);
}

/// A worktree is called by the name its path ends in, and by its whole path only
/// where it ends in none. A Unicode name is given as it stands.
pub proof fn law_a_worktree_is_called_by_the_end_of_its_path(bytes: Seq<u8>)
    ensures
        match file_name_bytes(bytes) {
            Some(name) => {
                &&& display_name_text(bytes) == lossy_text(name)
                &&& valid_utf8(name) ==> encode_utf8(display_name_text(bytes)) == name
            },
            None => {
                &&& display_name_text(bytes) == lossy_text(bytes)
                &&& valid_utf8(bytes) ==> encode_utf8(display_name_text(bytes)) == bytes
            },
        },
{
    if valid_utf8(bytes) {
        law_a_unicode_path_is_written_as_it_stands(bytes);
    }
    if let Some(name) = file_name_bytes(bytes) {
        if valid_utf8(name) {
            law_a_unicode_path_is_written_as_it_stands(name);
        }
    }
}

} // verus!
