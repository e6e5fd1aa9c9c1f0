//! The state of the panel, and how loading and refreshing change it.

use crate::model::{GitStatus, NodeKey, Row, Session};
use crate::node_map::{number_for, NodeMap};
use crate::node_set::NodeSet;
use crate::path::{components, path_key, raw};
use crate::path_map::{lookup, PathMap};
use crate::pending::PendingAgentRun;
use crate::text::text_of;
use std::path::PathBuf;
use vstd::prelude::*;

verus! {

/// How long the panel waits between two refreshes of its own.
pub const AUTO_REFRESH_INTERVAL_SECS: u64 = 10;

/// How many more sessions a click shows where nothing is configured.
pub const DEFAULT_MORE_STEP: usize = 20;

/// How many sessions a node shows at first where nothing is configured.
pub const DEFAULT_RESUMABLE_MAX: usize = 5;

/// What the panel reads of the service behind it.
#[derive(Debug, PartialEq, Eq)]
pub struct Service {
    pub main_root: PathBuf,
    pub resumable_max: usize,
    pub more_step: usize,
}

/// The panel's state.
#[derive(Debug)]
pub struct ZrushPanel {
    pub service: Option<Service>,
    pub rows: Vec<Row>,
    pub sessions: Vec<Session>,
    /// Kept structured so each piece of a worktree's git state can be coloured
    /// on its own.
    pub statuses: PathMap<GitStatus>,
    /// The nodes whose rows are folded away.
    pub collapsed: NodeSet,
    pub expanded: NodeMap,
    /// Raised by something the user did. Sticky: a background refresh must not
    /// wipe a message before it has been read.
    pub error: Option<String>,
    /// Raised by the last refresh, and cleared by the next one that succeeds.
    pub load_error: Option<String>,
    /// Whether this panel is the one on show in its dock. The timer keeps
    /// ticking either way, but a hidden panel does no work.
    pub active: bool,
}

/// What a refresh needs to know.
#[derive(Debug)]
pub struct RefreshRequest {
    pub collapsed: NodeSet,
    pub expanded: NodeMap,
    pub resumable_max: usize,
    /// Whether every session is asked for and every row built, rather than the
    /// first of each node.
    pub show_all: bool,
}

/// What a refresh found.
#[derive(Debug)]
pub struct LoadedRows {
    pub rows: Vec<Row>,
    pub sessions: Vec<Session>,
    pub statuses: PathMap<GitStatus>,
}

/// What was found out about one worktree.
#[derive(Debug)]
pub struct WorktreeReport {
    pub path: PathBuf,
    /// Its git state, or why it could not be read.
    pub status: Result<GitStatus, String>,
    /// How many sessions are on record for it.
    pub history: usize,
}

/// What the tree is built from, beside the worktrees and the sessions assigned
/// to them.
#[derive(Debug)]
pub struct TreeInput {
    pub statuses: PathMap<GitStatus>,
    pub history: PathMap<usize>,
    pub collapsed: NodeSet,
    pub expanded: NodeMap,
    pub resumable_max: usize,
    pub show_all: bool,
}

/// What the timer does when it has run down.
#[derive(Debug, Clone, Copy, PartialEq, Eq, Structural)]
pub enum Tick {
    /// The panel is gone: the timer stops.
    Stop,
    /// The panel is hidden: the timer starts again.
    Wait,
    /// The panel refreshes, and the timer starts again.
    Refresh,
}

/// The git states that could be read, by worktree. Of two reports on one path
/// the later counts.
pub open spec fn statuses_of(reports: Seq<WorktreeReport>) -> Map<Seq<Seq<u8>>, GitStatus>
    decreases reports.len(),
{
    if reports.len() == 0 {
        Map::empty()
    } else {
        let before = statuses_of(reports.drop_last());
        match reports.last().status {
            Ok(status) => before.insert(path_key(reports.last().path), status),
            Err(_) => before,
        }
    }
}

/// The number of sessions on record, by worktree. Of two reports on one path
/// the later counts.
pub open spec fn history_of(reports: Seq<WorktreeReport>) -> Map<Seq<Seq<u8>>, usize>
    decreases reports.len(),
{
    if reports.len() == 0 {
        Map::empty()
    } else {
        history_of(reports.drop_last()).insert(
            path_key(reports.last().path),
            reports.last().history,
        )
    }
}

/// The message of a panel that has no project to work on.
pub open spec fn no_root_text() -> Seq<char> {
    "Zrush needs a local project root"@
}

/// Every session: the live ones first, then those that can be resumed.
pub fn chain_sessions<S>(live: Vec<S>, resumable: Vec<S>) -> (sessions: Vec<S>)
    ensures
        sessions@ == live@ + resumable@,
{
    let mut sessions = live;
    let mut rest = resumable;
    sessions.append(&mut rest);
    sessions
}

/// What the tree is built from once the worktrees have been looked at. A
/// worktree whose git state could not be read is left without one; its history
/// counts all the same. Where the worktrees themselves could not be listed
/// there is no tree.
pub fn load_rows(
    reports: Result<Vec<WorktreeReport>, String>,
    request: RefreshRequest,
) -> (input: Result<TreeInput, String>)
    ensures
        match reports {
            Ok(reports) => input matches Ok(input) && {
                &&& input.statuses@ == statuses_of(reports@)
                &&& input.history@ == history_of(reports@)
                &&& input.collapsed == request.collapsed
                &&& input.expanded == request.expanded
                &&& input.resumable_max == request.resumable_max
                &&& input.show_all == request.show_all
            },
            Err(message) => input == Err::<TreeInput, String>(message),
        },
{
    let reports = match reports {
        Ok(reports) => reports,
        Err(message) => return Err(message),
    };
    let mut statuses: PathMap<GitStatus> = PathMap::new();
    let mut history: PathMap<usize> = PathMap::new();
    let mut at: usize = 0;
    while at < reports.len()
        invariant
            at <= reports@.len(),
            statuses@ == statuses_of(reports@.take(at as int)),
            history@ == history_of(reports@.take(at as int)),
        decreases reports@.len() - at,
    {
        let report = &reports[at];
        assert(reports@.take(at + 1).drop_last() =~= reports@.take(at as int));
        assert(reports@.take(at + 1).last() == *report);
        if let Ok(status) = &report.status {
            statuses.insert(report.path.clone(), *status);
        }
        history.insert(report.path.clone(), report.history);
        at += 1;
    }
    assert(reports@.take(at as int) =~= reports@);
    Ok(
        TreeInput {
            statuses,
            history,
            collapsed: request.collapsed,
            expanded: request.expanded,
            resumable_max: request.resumable_max,
            show_all: request.show_all,
        },
    )
}

impl ZrushPanel {
    /// Whether this is `before` with `message` put up as the error of something
    /// the user did.
    pub open spec fn reports(self, before: Self, message: Seq<char>) -> bool {
        &&& text_of(self.error) == Some(message)
        &&& self == (ZrushPanel { error: self.error, ..before })
    }

    /// This panel once a refresh has come back.
    pub open spec fn after_refresh(self, loaded: Result<LoadedRows, String>) -> Self {
        match loaded {
            Ok(loaded) => ZrushPanel {
                rows: loaded.rows,
                sessions: loaded.sessions,
                statuses: loaded.statuses,
                load_error: None,
                ..self
            },
            Err(message) => ZrushPanel { load_error: Some(message), ..self },
        }
    }

    /// This panel once these refreshes have come back, one after the other.
    pub open spec fn after_refreshes(self, outcomes: Seq<Result<LoadedRows, String>>) -> Self
        decreases outcomes.len(),
    {
        if outcomes.len() == 0 {
            self
        } else {
            self.after_refreshes(outcomes.drop_last()).after_refresh(outcomes.last())
        }
    }

    /// Whether this is `before` with more of a node's sessions shown.
    pub open spec fn shows_more_of(self, before: Self, node: NodeKey) -> bool {
        &&& self == (ZrushPanel { expanded: self.expanded, ..before })
        &&& self.expanded@ == before.expanded@.insert(
            node,
            (before.shown_of(node) + before.more_step()) as usize,
        )
    }

    /// Whether `request` is what a refresh of this panel needs to know. A panel
    /// without a service has nothing to refresh.
    pub open spec fn asks_for(self, request: Option<RefreshRequest>) -> bool {
        match self.service {
            Some(service) => request matches Some(request) && {
                &&& request.collapsed@ == self.collapsed@
                &&& request.expanded@ == self.expanded@
                &&& request.resumable_max == service.resumable_max
                &&& !request.show_all
            },
            None => request is None,
        }
    }

    /// How many more sessions a click on "more" shows.
    pub open spec fn more_step(self) -> usize {
        match self.service {
            Some(service) => service.more_step,
            None => DEFAULT_MORE_STEP,
        }
    }

    /// How many sessions a node shows.
    pub open spec fn shown_of(self, node: NodeKey) -> usize {
        match number_for(self.expanded@, node) {
            Some(shown) => shown,
            None => match self.service {
                Some(service) => service.resumable_max,
                None => DEFAULT_RESUMABLE_MAX,
            },
        }
    }

    /// Whether this is the panel of a workspace that has just been opened.
    pub open spec fn is_fresh(self, repo: Option<Result<Service, String>>) -> bool {
        &&& match repo {
            Some(Ok(service)) => self.service == Some(service) && self.error is None,
            Some(Err(message)) => self.service is None && self.error == Some(message),
            None => self.service is None && text_of(self.error) == Some(no_root_text()),
        }
        &&& self.rows@ == Seq::<Row>::empty()
        &&& self.sessions@ == Seq::<Session>::empty()
        &&& self.statuses@ == Map::<Seq<Seq<u8>>, GitStatus>::empty()
        &&& self.collapsed@ == Set::<NodeKey>::empty()
        &&& self.expanded@ == Map::<NodeKey, usize>::empty()
        &&& self.load_error is None
        &&& self.active
    }

    /// The panel of a workspace that has just been opened, and the first refresh
    /// it asks for. `repo` is what became of the service for the workspace's
    /// first root, where it has a root.
    pub fn load(repo: Option<Result<Service, String>>) -> (loaded: (Self, Option<RefreshRequest>))
        ensures
            loaded.0.is_fresh(repo),
            loaded.0.asks_for(loaded.1),
    {
        let (service, error) = match repo {
            Some(repo) => match repo {
                Ok(service) => (Some(service), None),
                Err(message) => (None, Some(message)),
            },
            None => (None, Some("Zrush needs a local project root".to_string())),
        };
        let panel = ZrushPanel {
            service,
            rows: Vec::new(),
            sessions: Vec::new(),
            statuses: PathMap::new(),
            collapsed: NodeSet::new(),
            expanded: NodeMap::new(),
            error,
            load_error: None,
            active: true,
        };
        let request = panel.refresh();
        (panel, request)
    }

    /// The run that a panel which has just been loaded starts: the one that
    /// waited for its root. It is taken even where the workspace has gone in
    /// the meantime and nothing can start it.
    pub fn pick_up_run(
        pending: &mut PendingAgentRun,
        root: Option<&PathBuf>,
        workspace_is_open: bool,
    ) -> (run: Option<(PathBuf, Vec<String>)>)
        ensures
            match root {
                Some(root) => {
                    &&& *final(pending) == old(pending).after_handing_to(*root)
                    &&& run == (if workspace_is_open {
                        old(pending).handed_to(*root)
                    } else {
                        None
                    })
                },
                None => *final(pending) == *old(pending) && run is None,
            },
    {
        match root {
            Some(root) => {
                let taken = pending.take_for(root);
                if workspace_is_open {
                    taken
                } else {
                    None
                }
            },
            None => None,
        }
    }

    /// What a refresh of this panel needs to know. A panel without a service
    /// has nothing to refresh.
    pub fn refresh(&self) -> (request: Option<RefreshRequest>)
        ensures
            self.asks_for(request),
    {
        match &self.service {
            Some(service) => {
                Some(
                    RefreshRequest {
                        collapsed: self.collapsed.copy(),
                        expanded: self.expanded.copy(),
                        resumable_max: service.resumable_max,
                        show_all: false,
                    },
                )
            },
            None => None,
        }
    }

    /// Takes in what a refresh found, or why it failed.
    pub fn refreshed(&mut self, loaded: Result<LoadedRows, String>)
        ensures
            *final(self) == old(self).after_refresh(loaded),
    {
        match loaded {
            Ok(loaded) => {
                self.rows = loaded.rows;
                self.sessions = loaded.sessions;
                self.statuses = loaded.statuses;
                self.load_error = None;
            },
            Err(message) => {
                self.load_error = Some(message);
            },
        }
    }

    /// Takes in whether the panel is the one on show in its dock.
    pub fn set_active(&mut self, active: bool)
        ensures
            *final(self) == (ZrushPanel { active, ..*old(self) }),
    {
        self.active = active;
    }

    /// What the timer of this panel does when it has run down: a hidden panel
    /// does no work.
    pub open spec fn tick(self) -> Tick {
        if self.active {
            Tick::Refresh
        } else {
            Tick::Wait
        }
    }

    /// What the timer does when it has run down, while there still is a panel
    /// or once there is none.
    pub fn auto_refresh_tick(panel: Option<&ZrushPanel>) -> (tick: Tick)
        ensures
            tick == (match panel {
                Some(panel) => panel.tick(),
                None => Tick::Stop,
            }),
    {
        match panel {
            Some(panel) => {
                if panel.active {
                    Tick::Refresh
                } else {
                    Tick::Wait
                }
            },
            None => Tick::Stop,
        }
    }

    /// How many sessions the row's node would show after a click on "more",
    /// where that many can be counted.
    pub fn shown_with_more(&self, row: &Row) -> (shown: Option<usize>)
        ensures
            match shown {
                Some(shown) => shown == self.shown_of(row.node@) + self.more_step(),
                None => self.shown_of(row.node@) + self.more_step() > usize::MAX,
            },
    {
        let step: usize = match &self.service {
            Some(service) => service.more_step,
            None => DEFAULT_MORE_STEP,
        };
        let current: usize = match self.expanded.get(&row.node) {
            Some(shown) => shown,
            None => match &self.service {
                Some(service) => service.resumable_max,
                None => DEFAULT_RESUMABLE_MAX,
            },
        };
        current.checked_add(step)
    }

    /// Shows more of the sessions of the row's node, and asks for the refresh
    /// that brings them up.
    pub fn expand_more(&mut self, row: &Row) -> (request: Option<RefreshRequest>)
        requires
            old(self).shown_of(row.node@) + old(self).more_step() <= usize::MAX,
        ensures
            final(self).shows_more_of(*old(self), row.node@),
            final(self).asks_for(request),
    {
        if let Some(shown) = self.shown_with_more(row) {
            self.expanded.insert(&row.node, shown);
        }
        self.refresh()
    }
}

/// However often the panel refreshes, and however the refreshes end, the error
/// of what the user did stays up, and nothing the user folded or expanded
/// changes.
pub proof fn law_refreshes_keep_what_the_user_did(
    panel: ZrushPanel,
    outcomes: Seq<Result<LoadedRows, String>>,
)
    ensures
        panel.after_refreshes(outcomes).error == panel.error,
        panel.after_refreshes(outcomes).service == panel.service,
        panel.after_refreshes(outcomes).collapsed == panel.collapsed,
        panel.after_refreshes(outcomes).expanded == panel.expanded,
        panel.after_refreshes(outcomes).active == panel.active,
    decreases outcomes.len(),
{
    if outcomes.len() > 0 {
        law_refreshes_keep_what_the_user_did(panel, outcomes.drop_last());
    }
}

/// The load error is that of the last refresh: a success clears it, and a
/// failure leaves what the panel showed in place.
pub proof fn law_the_last_refresh_decides_the_load_error(
    panel: ZrushPanel,
    outcomes: Seq<Result<LoadedRows, String>>,
)
    requires
        outcomes.len() > 0,
    ensures
        panel.after_refreshes(outcomes).load_error == (match outcomes.last() {
            Ok(_) => None,
            Err(message) => Some(message),
        }),
        outcomes.last() is Err ==> {
            let before = panel.after_refreshes(outcomes.drop_last());
            let after = panel.after_refreshes(outcomes);
            after.rows == before.rows && after.sessions == before.sessions && after.statuses
                == before.statuses
        },
{
}

/// A panel that was hidden does no work when its timer runs down, whatever
/// refreshes came back since, and one that was shown refreshes each time.
pub proof fn law_a_hidden_panel_does_no_work(
    panel: ZrushPanel,
    shown: bool,
    outcomes: Seq<Result<LoadedRows, String>>,
)
    ensures
        (ZrushPanel { active: shown, ..panel }).after_refreshes(outcomes).tick() == (if shown {
            Tick::Refresh
        } else {
            Tick::Wait
        }),
{
    law_refreshes_keep_what_the_user_did(ZrushPanel { active: shown, ..panel }, outcomes);
}

/// A click on "more" shows one step more of its node and no more of any other.
pub proof fn law_more_shows_one_step_more(
    before: ZrushPanel,
    after: ZrushPanel,
    node: NodeKey,
    other: NodeKey,
)
    requires
        before.shown_of(node) + before.more_step() <= usize::MAX,
        after.shows_more_of(before, node),
    ensures
        after.shown_of(node) == before.shown_of(node) + before.more_step(),
        other != node ==> after.shown_of(other) == before.shown_of(other),
        after.more_step() == before.more_step(),
{
}

/// No two reports are about one worktree.
pub open spec fn one_report_each(reports: Seq<WorktreeReport>) -> bool {
    forall|i: int, j: int|
        0 <= i < j < reports.len() ==> path_key(#[trigger] reports[i].path) != path_key(
            #[trigger] reports[j].path,
        )
}

/// Where each worktree is reported on once, its git state is on record exactly
/// when it could be read, and its history is in any case.
pub proof fn law_each_worktree_keeps_its_own_report(reports: Seq<WorktreeReport>, at: int)
    requires
        one_report_each(reports),
        0 <= at < reports.len(),
    ensures
        lookup(statuses_of(reports), reports[at].path) == (match reports[at].status {
            Ok(status) => Some(status),
            Err(_) => None,
        }),
        lookup(history_of(reports), reports[at].path) == Some(reports[at].history),
    decreases reports.len(),
{
    let before = reports.drop_last();
    if at < reports.len() - 1 {
        assert(before[at] == reports[at]);
        assert forall|i: int, j: int| 0 <= i < j < before.len() implies path_key(
            #[trigger] before[i].path,
        ) != path_key(#[trigger] before[j].path) by {
            assert(before[i] == reports[i] && before[j] == reports[j]);
        }
        law_each_worktree_keeps_its_own_report(before, at);
        assert(path_key(reports[at].path) != path_key(reports[reports.len() - 1].path));
    } else {
        lemma_unreported_is_absent(before, reports[at].path);
    }
}

/// A path that no report is about is not on record.
proof fn lemma_unreported_is_absent(reports: Seq<WorktreeReport>, path: PathBuf)
    requires
        forall|i: int|
            0 <= i < reports.len() ==> path_key(#[trigger] reports[i].path) != path_key(path),
    ensures
        lookup(statuses_of(reports), path) is None,
        lookup(history_of(reports), path) is None,
    decreases reports.len(),
{
    if reports.len() > 0 {
        assert(path_key(reports[reports.len() - 1].path) != path_key(path));
        lemma_unreported_is_absent(reports.drop_last(), path);
    }
}

/// After any refreshes of which the last succeeded, the panel shows the rows,
/// sessions and git states which that one found, whatever it showed before.
pub proof fn law_a_refresh_puts_up_what_it_found(
    panel: ZrushPanel,
    outcomes: Seq<Result<LoadedRows, String>>,
    found: LoadedRows,
)
    requires
        outcomes.len() > 0,
        outcomes.last() == Ok::<LoadedRows, String>(found),
    ensures
        panel.after_refreshes(outcomes).rows == found.rows,
        panel.after_refreshes(outcomes).sessions == found.sessions,
        panel.after_refreshes(outcomes).statuses == found.statuses,
        panel.after_refreshes(outcomes).load_error is None,
{
}

/// One refresh that succeeds puts up what it found, one that fails puts up why
/// and leaves what the panel showed; neither touches anything else.
pub proof fn law_one_refresh_changes_what_it_found_alone(
    panel: ZrushPanel,
    loaded: Result<LoadedRows, String>,
)
    ensures
        ({
            let after = panel.after_refresh(loaded);
            &&& match loaded {
                Ok(found) => after.rows == found.rows && after.sessions == found.sessions
                    && after.statuses == found.statuses && after.load_error is None,
                Err(message) => after.rows == panel.rows && after.sessions == panel.sessions
                    && after.statuses == panel.statuses && after.load_error == Some(message),
            }
            &&& after.service == panel.service
            &&& after.collapsed == panel.collapsed
            &&& after.expanded == panel.expanded
            &&& after.error == panel.error
            &&& after.active == panel.active
        }),
{
}

/// A panel has just been loaded: it has the service there is, or says why there
/// is none, is on show, and holds nothing yet.
pub proof fn law_a_fresh_panel_has_its_service_or_says_why(
    panel: ZrushPanel,
    repo: Option<Result<Service, String>>,
)
    requires
        panel.is_fresh(repo),
    ensures
        match repo {
            Some(Ok(service)) => panel.service == Some(service) && panel.error is None,
            Some(Err(message)) => panel.service is None && panel.error == Some(message),
            None => panel.service is None && (panel.error matches Some(error) && error@
                == "Zrush needs a local project root"@),
        },
        panel.rows@.len() == 0 && panel.sessions@.len() == 0,
        panel.load_error is None && panel.active,
        forall|key: Seq<Seq<u8>>| !(#[trigger] panel.statuses@.dom().contains(key)),
        forall|key: NodeKey| !(#[trigger] panel.expanded@.dom().contains(key)),
        forall|key: NodeKey| !(#[trigger] panel.collapsed@.contains(key)),
{
}

/// A refresh is asked for exactly where there is a service, with every node the
/// user folded, every number the user expanded a node to, and the service's own
/// limit, and never for everything.
pub proof fn law_a_refresh_asks_for_what_the_user_sees(
    panel: ZrushPanel,
    request: Option<RefreshRequest>,
    node: NodeKey,
)
    requires
        panel.asks_for(request),
    ensures
        request is Some <==> panel.service is Some,
        request matches Some(request) ==> {
            &&& request.collapsed@.contains(node) == panel.collapsed@.contains(node)
            &&& request.expanded@.dom().contains(node) == panel.expanded@.dom().contains(node)
            &&& panel.expanded@.dom().contains(node) ==> request.expanded@[node]
                == panel.expanded@[node]
            &&& request.resumable_max == panel.service->0.resumable_max
            &&& !request.show_all
        },
{
}

/// The message put up is the one given, and nothing else of the panel changes.
pub proof fn law_a_report_changes_the_message_alone(
    before: ZrushPanel,
    after: ZrushPanel,
    message: Seq<char>,
)
    requires
        after.reports(before, message),
    ensures
        after.error matches Some(error) && error@ == message,
        after.service == before.service,
        after.rows == before.rows,
        after.sessions == before.sessions,
        after.statuses == before.statuses,
        after.collapsed == before.collapsed,
        after.expanded == before.expanded,
        after.load_error == before.load_error,
        after.active == before.active,
{
}

/// A click on "more" adds the service's step, or twenty without one, to what the
/// node showed: the number it was expanded to, else the service's limit, or five
/// without one. No other node and nothing else of the panel changes.
pub proof fn law_more_adds_the_step_to_what_was_shown(
    before: ZrushPanel,
    after: ZrushPanel,
    node: NodeKey,
    other: NodeKey,
)
    requires
        after.shows_more_of(before, node),
    ensures
        ({
            let step: int = if before.service is Some {
                before.service->0.more_step as int
            } else {
                20
            };
            let shown: int = if before.expanded@.dom().contains(node) {
                before.expanded@[node] as int
            } else if before.service is Some {
                before.service->0.resumable_max as int
            } else {
                5
            };
            shown + step <= usize::MAX ==> after.expanded@.dom().contains(node)
                && after.expanded@[node] == shown + step
        }),
        other != node ==> after.expanded@.dom().contains(other) == before.expanded@.dom().contains(
            other,
        ),
        other != node && before.expanded@.dom().contains(other) ==> after.expanded@[other]
            == before.expanded@[other],
        after == (ZrushPanel { expanded: after.expanded, ..before }),
{
}

/// How many sessions a node shows, and how many a click adds: as configured, else
/// five and twenty.
pub proof fn law_a_node_shows_what_it_was_expanded_to(panel: ZrushPanel, node: NodeKey)
    ensures
        panel.more_step() == (if panel.service is Some {
            panel.service->0.more_step
        } else {
            20
        }),
        panel.expanded@.dom().contains(node) ==> panel.shown_of(node) == panel.expanded@[node],
        !panel.expanded@.dom().contains(node) ==> panel.shown_of(node) == (
        if panel.service is Some {
            panel.service->0.resumable_max
        } else {
            5
        }),
{
}

/// The git state on record for a worktree is the last that could be read.
pub proof fn law_the_last_state_read_counts(reports: Seq<WorktreeReport>, at: int, state: GitStatus)
    requires
        0 <= at < reports.len(),
        reports[at].status == Ok::<GitStatus, String>(state),
        forall|i: int|
            at < i < reports.len() && (#[trigger] reports[i]).status is Ok ==> components(
                raw(reports[i].path),
            ) != components(raw(reports[at].path)),
    ensures
        statuses_of(reports).dom().contains(components(raw(reports[at].path))),
        statuses_of(reports)[components(raw(reports[at].path))] == state,
    decreases reports.len(),
{
    if at < reports.len() - 1 {
        let before = reports.drop_last();
        assert forall|i: int|
            at < i < before.len() && (#[trigger] before[i]).status is Ok implies components(
            raw(before[i].path),
        ) != components(raw(before[at].path)) by {
            assert(before[i] == reports[i]);
        }
        law_the_last_state_read_counts(before, at, state);
        assert(reports[reports.len() - 1] == reports.last());
    }
}

/// A worktree whose git state could not be read has none on record.
pub proof fn law_a_state_never_read_is_not_on_record(reports: Seq<WorktreeReport>, path: PathBuf)
    requires
        forall|i: int|
            0 <= i < reports.len() && (#[trigger] reports[i]).status is Ok ==> components(
                raw(reports[i].path),
            ) != components(raw(path)),
    ensures
        !statuses_of(reports).dom().contains(components(raw(path))),
    decreases reports.len(),
{
    if reports.len() > 0 {
        assert(reports[reports.len() - 1] == reports.last());
        law_a_state_never_read_is_not_on_record(reports.drop_last(), path);
    }
}

/// The history on record for a worktree is the one reported last, whether or not
/// its git state could be read.
pub proof fn law_the_last_history_counts(reports: Seq<WorktreeReport>, at: int)
    requires
        0 <= at < reports.len(),
        forall|i: int|
            at < i < reports.len() ==> components(raw((#[trigger] reports[i]).path)) != components(
                raw(reports[at].path),
            ),
    ensures
        history_of(reports).dom().contains(components(raw(reports[at].path))),
        history_of(reports)[components(raw(reports[at].path))] == reports[at].history,
    decreases reports.len(),
{
    if at < reports.len() - 1 {
        let before = reports.drop_last();
        assert forall|i: int| at < i < before.len() implies components(
            raw((#[trigger] before[i]).path),
        ) != components(raw(before[at].path)) by {
            assert(before[i] == reports[i]);
        }
        law_the_last_history_counts(before, at);
        assert(reports[reports.len() - 1] == reports.last());
    }
}

/// No history is on record for a path that no report is about.
pub proof fn law_no_history_without_a_report(reports: Seq<WorktreeReport>, path: PathBuf)
    requires
        forall|i: int|
            0 <= i < reports.len() ==> components(raw((#[trigger] reports[i]).path)) != components(
                raw(path),
            ),
    ensures
        !history_of(reports).dom().contains(components(raw(path))),
    decreases reports.len(),
{
    if reports.len() > 0 {
        assert(reports[reports.len() - 1] == reports.last());
        law_no_history_without_a_report(reports.drop_last(), path);
    }
}

} // verus!
