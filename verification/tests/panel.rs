use std::path::PathBuf;
use zrush_panel::activation::{
    choose_display_name, display_name, last_requests, ActivateStep, Binding, OpenedStep, Opening,
    RanStep, RouteStep,
};
use zrush_panel::host::{HostError, HostRequest, ZedHost};
use zrush_panel::menu::{
    MenuCommand, MenuStep, Prompt, PromptLevel, RowMenu, SessionDeletion, WorktreeRemoval,
};
use zrush_panel::model::{GitStatus, NodeId, Row, RowKind, Session, SessionKind};
use zrush_panel::node_map::NodeMap;
use zrush_panel::node_set::NodeSet;
use zrush_panel::panel::{
    chain_sessions, load_rows, LoadedRows, RefreshRequest, Service, Tick, WorktreeReport,
    ZrushPanel, AUTO_REFRESH_INTERVAL_SECS,
};
use zrush_panel::path_map::PathMap;
use zrush_panel::pending::PendingAgentRun;
use zrush_panel::settings::{
    DockPosition, DockSide, PanelSettingsContent, SettingsContent, ZrushPanelSettings,
};
use zrush_panel::status::Color;
use zrush_panel::terminal::{
    RevealStrategy, RevealTarget, SpawnInTerminal, TaskId, TerminalPlan,
};
use zrush_panel::view::{click_activates, PanelBody, RowView};

fn path(text: &str) -> PathBuf {
    PathBuf::from(text)
}

fn words(words: &[&str]) -> Vec<String> {
    words.iter().map(|word| word.to_string()).collect()
}

fn panel() -> ZrushPanel {
    let mut panel = ZrushPanel::load(Some(Ok(Service {
        main_root: path("/repo"),
        resumable_max: 3,
        more_step: 7,
    })))
    .0;
    panel.sessions = vec![
        session("a", "aider", SessionKind::Resumable),
        session("b", "codex", SessionKind::Live),
        session("a", "other", SessionKind::Live),
    ];
    panel
}

fn session(id: &str, agent: &str, kind: SessionKind) -> Session {
    Session {
        id: id.to_string(),
        agent: agent.to_string(),
        kind,
    }
}

fn row(node: NodeId, kind: RowKind, session_id: Option<&str>) -> Row {
    Row {
        node,
        kind,
        session_id: session_id.map(|id| id.to_string()),
        glyph: "> ".to_string(),
        label: "feature".to_string(),
        badge: String::new(),
        location: "~/repo/feature".to_string(),
    }
}

fn feature() -> NodeId {
    NodeId::Worktree(path("/repo/feature"))
}

#[test]
fn the_host_hands_requests_out_once_and_in_order() {
    let mut host = ZedHost::default();
    assert_eq!(host.open_workspace(&path("/a"), false), Ok(()));
    assert_eq!(host.run_agent(&path("/b"), &words(&["aider"]), false), Ok(()));
    assert_eq!(
        host.drain(false),
        Ok(vec![
            HostRequest::OpenWorkspace(path("/a")),
            HostRequest::RunAgent {
                cwd: path("/b"),
                command: words(&["aider"]),
            },
        ])
    );
    assert_eq!(host.drain(false), Ok(vec![]));
}

#[test]
fn a_poisoned_queue_refuses_everything_and_keeps_what_it_holds() {
    let mut host = ZedHost::default();
    assert_eq!(host.open_workspace(&path("/a"), false), Ok(()));
    assert_eq!(host.open_workspace(&path("/b"), true), Err(HostError::QueuePoisoned));
    assert_eq!(
        host.run_agent(&path("/b"), &words(&["aider"]), true),
        Err(HostError::QueuePoisoned)
    );
    assert_eq!(host.drain(true), Err(HostError::QueuePoisoned));
    assert_eq!(host.requests, vec![HostRequest::OpenWorkspace(path("/a"))]);
    assert_eq!(
        HostError::QueuePoisoned.message(),
        "Zed host request queue is poisoned"
    );
}

#[test]
fn a_panel_loads_with_its_service_or_says_why_not() {
    let (panel, first) = ZrushPanel::load(Some(Ok(Service {
        main_root: path("/repo"),
        resumable_max: 3,
        more_step: 7,
    })));
    assert!(panel.service.is_some());
    assert_eq!(panel.error, None);
    assert_eq!(panel.load_error, None);
    assert!(panel.active);
    assert!(panel.rows.is_empty());
    assert!(panel.statuses.entries().is_empty());
    assert!(panel.collapsed.nodes().is_empty());
    assert_eq!(first.unwrap().resumable_max, 3);

    let (failed, first) = ZrushPanel::load(Some(Err("no config".to_string())));
    assert!(first.is_none());
    assert!(failed.service.is_none());
    assert_eq!(failed.error, Some("no config".to_string()));

    let rootless = ZrushPanel::load(None).0;
    assert!(rootless.service.is_none());
    assert_eq!(
        rootless.error,
        Some("Zrush needs a local project root".to_string())
    );
}

#[test]
fn a_loaded_panel_picks_up_the_run_that_waited_for_its_root() {
    let mut pending = PendingAgentRun::default();
    pending.set(path("/repo/feature"), path("/repo/feature"), words(&["aider"]));
    assert_eq!(ZrushPanel::pick_up_run(&mut pending, None, true), None);
    assert_eq!(
        ZrushPanel::pick_up_run(&mut pending, Some(&path("/repo")), true),
        None
    );
    assert_eq!(
        ZrushPanel::pick_up_run(&mut pending, Some(&path("/repo/feature")), true),
        Some((path("/repo/feature"), words(&["aider"])))
    );
    pending.set(path("/repo/feature"), path("/repo/feature"), words(&["aider"]));
    assert_eq!(
        ZrushPanel::pick_up_run(&mut pending, Some(&path("/repo/feature")), false),
        None
    );
    assert_eq!(pending, PendingAgentRun(None));
}

#[test]
fn a_refresh_asks_for_what_is_folded_and_expanded() {
    let mut panel = panel();
    panel.collapsed.insert(&NodeId::Orphans);
    panel.expand_more(&row(feature(), RowKind::More, None));
    let request = panel.refresh().unwrap();
    assert_eq!(request.collapsed.nodes(), &vec![NodeId::Orphans]);
    assert_eq!(request.expanded.get(&feature()), Some(10));
    assert_eq!(request.expanded.get(&NodeId::Orphans), None);
    assert_eq!(request.resumable_max, 3);
    assert!(!request.show_all);
    assert!(ZrushPanel::load(None).0.refresh().is_none());
}

#[test]
fn a_refresh_keeps_the_users_error_and_replaces_the_load_error() {
    let mut panel = panel();
    panel.error = Some("click failed".to_string());
    panel.refreshed(Err("git failed".to_string()));
    assert_eq!(panel.error, Some("click failed".to_string()));
    assert_eq!(panel.load_error, Some("git failed".to_string()));
    assert_eq!(panel.sessions.len(), 3);

    let mut statuses = PathMap::new();
    statuses.insert(path("/repo/feature"), GitStatus::default());
    panel.refreshed(Ok(LoadedRows {
        rows: vec![row(feature(), RowKind::Worktree, None)],
        sessions: vec![session("z", "aider", SessionKind::Live)],
        statuses,
    }));
    assert_eq!(panel.error, Some("click failed".to_string()));
    assert_eq!(panel.load_error, None);
    assert_eq!(panel.rows.len(), 1);
    assert_eq!(panel.sessions, vec![session("z", "aider", SessionKind::Live)]);
    assert_eq!(
        panel.statuses.get(&path("/repo/feature")),
        Some(GitStatus::default())
    );
}

#[test]
fn a_hidden_panel_does_no_work_but_keeps_ticking() {
    let mut panel = panel();
    assert_eq!(AUTO_REFRESH_INTERVAL_SECS, 10);
    assert_eq!(ZrushPanel::auto_refresh_tick(Some(&panel)), Tick::Refresh);
    panel.set_active(false);
    assert_eq!(ZrushPanel::auto_refresh_tick(Some(&panel)), Tick::Wait);
    panel.refreshed(Err("git failed".to_string()));
    assert_eq!(ZrushPanel::auto_refresh_tick(Some(&panel)), Tick::Wait);
    panel.set_active(true);
    assert_eq!(ZrushPanel::auto_refresh_tick(Some(&panel)), Tick::Refresh);
    assert_eq!(ZrushPanel::auto_refresh_tick(None), Tick::Stop);
}

fn request() -> RefreshRequest {
    RefreshRequest {
        collapsed: NodeSet::new(),
        expanded: NodeMap::new(),
        resumable_max: 3,
        show_all: false,
    }
}

#[test]
fn the_tree_is_built_from_the_states_that_could_be_read() {
    let status = GitStatus {
        changed: 2,
        ..Default::default()
    };
    let reports = vec![
        WorktreeReport {
            path: path("/repo"),
            status: Ok(status),
            history: 4,
        },
        WorktreeReport {
            path: path("/repo/feature"),
            status: Err("not a worktree".to_string()),
            history: 9,
        },
    ];
    let input = load_rows(Ok(reports), request()).unwrap();
    assert_eq!(input.statuses.get(&path("/repo/")), Some(status));
    assert_eq!(input.statuses.get(&path("/repo/feature")), None);
    assert_eq!(input.statuses.entries().len(), 1);
    assert_eq!(input.history.get(&path("/repo")), Some(4));
    assert_eq!(input.history.get(&path("/repo/feature")), Some(9));
    assert_eq!(input.resumable_max, 3);
    assert!(!input.show_all);
}

#[test]
fn no_tree_is_built_where_the_worktrees_cannot_be_listed() {
    let failed = load_rows(Err("git failed".to_string()), request());
    assert_eq!(failed.err(), Some("git failed".to_string()));
}

#[test]
fn live_sessions_come_before_resumable_ones() {
    assert_eq!(chain_sessions(vec![1, 2], vec![3]), vec![1, 2, 3]);
    assert_eq!(chain_sessions(Vec::<u8>::new(), vec![]), Vec::<u8>::new());
}

#[test]
fn a_path_map_holds_one_value_per_path() {
    let mut map = PathMap::new();
    map.insert(path("/a/b"), 1);
    map.insert(path("/a/c"), 2);
    map.insert(path("/a//b/"), 3);
    assert_eq!(map.get(&path("/a/b")), Some(3));
    assert_eq!(map.get(&path("/a/c")), Some(2));
    assert_eq!(map.get(&path("/a")), None);
    assert_eq!(map.entries(), &vec![(path("/a/b"), 3), (path("/a/c"), 2)]);
    assert_eq!(map.copy().entries(), map.entries());
}

#[test]
fn a_node_set_holds_each_node_once() {
    let mut set = NodeSet::new();
    set.insert(&feature());
    set.insert(&NodeId::Orphans);
    set.insert(&NodeId::Worktree(path("/repo//feature/")));
    set.insert(&NodeId::Orphans);
    assert_eq!(set.nodes(), &vec![feature(), NodeId::Orphans]);
    assert!(set.contains(&feature()));
    assert!(!set.contains(&NodeId::Worktree(path("/repo"))));
    assert_eq!(set.copy().nodes(), set.nodes());
}

/// How many sessions of the feature worktree the refresh of a click shows.
fn shown_after(step: ActivateStep) -> Option<usize> {
    match step {
        ActivateStep::Expanded { refresh } => refresh?.expanded.get(&feature()),
        _ => None,
    }
}

#[test]
fn more_shows_one_step_more_of_its_node() {
    let mut panel = panel();
    let more = row(feature(), RowKind::More, None);
    assert_eq!(shown_after(panel.activate_row(&more)), Some(10));
    assert_eq!(panel.expanded.get(&feature()), Some(10));
    assert_eq!(shown_after(panel.activate_row(&more)), Some(17));
    assert_eq!(panel.expanded.get(&feature()), Some(17));
    assert_eq!(panel.expanded.get(&NodeId::Orphans), None);
    panel.expand_more(&row(NodeId::Orphans, RowKind::More, None));
    assert_eq!(panel.expanded.get(&NodeId::Orphans), Some(10));
    assert_eq!(panel.expanded.worktrees().entries(), &vec![(path("/repo/feature"), 17)]);

    assert_eq!(panel.shown_with_more(&more), Some(24));
    panel.expanded.insert(&feature(), usize::MAX - 6);
    assert_eq!(panel.shown_with_more(&more), None);

    let mut bare = ZrushPanel::load(None).0;
    assert!(bare.expand_more(&more).is_none());
    assert_eq!(bare.expanded.get(&feature()), Some(25));
}

fn opened_by(step: ActivateStep) -> Option<Opening> {
    match step {
        ActivateStep::Open(opening) => Some(opening),
        _ => None,
    }
}

#[test]
fn a_click_opens_the_worktree_with_the_session_it_is_bound_to() {
    let mut panel = panel();
    assert_eq!(
        opened_by(panel.activate_row(&row(feature(), RowKind::Session, Some("a")))),
        Some(Opening {
            path: path("/repo/feature"),
            binding: Some(Binding {
                agent: "aider".to_string(),
                session: "a".to_string(),
                kind: SessionKind::Resumable,
            }),
        })
    );
    let unbound = Some(opening(None));
    assert_eq!(
        opened_by(panel.activate_row(&row(feature(), RowKind::Session, Some("gone")))),
        unbound
    );
    assert_eq!(
        opened_by(panel.activate_row(&row(feature(), RowKind::Worktree, None))),
        unbound
    );
    assert!(matches!(
        panel.activate_row(&row(NodeId::Orphans, RowKind::Orphan, Some("a"))),
        ActivateStep::Ignored
    ));
    assert!(matches!(
        ZrushPanel::load(None).0.activate_row(&row(feature(), RowKind::Worktree, None)),
        ActivateStep::Ignored
    ));
}

fn opening(binding: Option<(&str, &str, SessionKind)>) -> Opening {
    Opening {
        path: path("/repo/feature"),
        binding: binding.map(|(agent, session, kind)| Binding {
            agent: agent.to_string(),
            session: session.to_string(),
            kind,
        }),
    }
}

#[test]
fn an_opened_worktree_runs_the_agent_of_its_row() {
    let mut panel = panel();
    assert_eq!(
        panel.opened(
            &opening(Some(("aider", "a", SessionKind::Resumable))),
            Ok(()),
            Some("codex")
        ),
        OpenedStep::Run {
            agent: "aider".to_string(),
            resume: Some("a".to_string()),
        }
    );
    assert_eq!(
        panel.opened(&opening(None), Ok(()), Some("codex")),
        OpenedStep::Run {
            agent: "codex".to_string(),
            resume: None,
        }
    );
    assert_eq!(panel.opened(&opening(None), Ok(()), None), OpenedStep::Route);
    assert_eq!(
        panel.opened(
            &opening(Some(("aider", "a", SessionKind::Live))),
            Ok(()),
            Some("aider")
        ),
        OpenedStep::Route
    );
    assert_eq!(panel.error, None);
    assert_eq!(
        panel.opened(&opening(None), Err("cannot open".to_string()), Some("codex")),
        OpenedStep::Failed
    );
    assert_eq!(panel.error, Some("cannot open".to_string()));
}

#[test]
fn a_worktree_is_opened_with_its_session_live_or_not() {
    assert_eq!(
        opening(Some(("codex", "b", SessionKind::Live))).open_binding(),
        Some(("codex", "b"))
    );
    assert_eq!(opening(None).open_binding(), None);
}

#[test]
fn a_run_that_fails_is_reported() {
    let mut panel = panel();
    assert_eq!(panel.ran(Ok(())), RanStep::Route);
    assert_eq!(panel.error, None);
    assert_eq!(panel.ran(Err("no agent".to_string())), RanStep::Failed);
    assert_eq!(panel.error, Some("no agent".to_string()));
}

fn open_and_run() -> Vec<HostRequest> {
    vec![
        HostRequest::OpenWorkspace(path("/repo/feature")),
        HostRequest::RunAgent {
            cwd: path("/repo/feature/sub"),
            command: words(&["aider"]),
        },
    ]
}

#[test]
fn a_worktree_already_open_is_not_switched_to() {
    let mut panel = panel();
    let mut pending = PendingAgentRun::default();
    pending.set(path("/old"), path("/old"), words(&["codex"]));
    assert_eq!(
        panel.route(
            &mut pending,
            Ok(open_and_run()),
            Some(vec![path("/x"), path("/repo/feature/")])
        ),
        RouteStep::RunHere {
            cwd: path("/repo/feature/sub"),
            command: words(&["aider"]),
        }
    );
    assert_eq!(pending, PendingAgentRun(None));
    assert_eq!(
        panel.route(
            &mut pending,
            Ok(vec![HostRequest::OpenWorkspace(path("/x"))]),
            Some(vec![path("/x")])
        ),
        RouteStep::Done
    );
    assert_eq!(panel.route(&mut pending, Ok(vec![]), Some(vec![])), RouteStep::Done);
}

#[test]
fn a_switch_leaves_the_run_to_the_workspace_it_builds() {
    let mut panel = panel();
    let mut pending = PendingAgentRun::default();
    assert_eq!(
        panel.route(&mut pending, Ok(open_and_run()), Some(vec![path("/repo")])),
        RouteStep::Switch {
            path: path("/repo/feature"),
            display_name: "feature".to_string(),
        }
    );
    assert_eq!(pending.take_for(&path("/repo")), None);
    assert_eq!(
        pending.take_for(&path("/repo/feature")),
        Some((path("/repo/feature/sub"), words(&["aider"])))
    );
    pending.set(path("/old"), path("/old"), words(&["codex"]));
    assert_eq!(
        panel.route(
            &mut pending,
            Ok(vec![HostRequest::OpenWorkspace(path("/"))]),
            Some(vec![])
        ),
        RouteStep::Switch {
            path: path("/"),
            display_name: "/".to_string(),
        }
    );
    assert_eq!(pending, PendingAgentRun(None));
    assert_eq!(panel.error, None);
}

#[test]
fn requests_that_lead_nowhere_are_reported_and_drop_the_waiting_run() {
    let mut panel = panel();
    let mut pending = PendingAgentRun::default();
    pending.set(path("/old"), path("/old"), words(&["codex"]));
    assert_eq!(
        panel.route(&mut pending, Err(HostError::QueuePoisoned), Some(vec![])),
        RouteStep::Failed
    );
    assert_eq!(
        panel.error,
        Some("Zed host request queue is poisoned".to_string())
    );
    assert_eq!(pending, PendingAgentRun(None));
    pending.set(path("/old"), path("/old"), words(&["codex"]));
    assert_eq!(
        panel.route(&mut pending, Ok(open_and_run()), None),
        RouteStep::Failed
    );
    assert_eq!(
        panel.error,
        Some("Zed workspace is no longer available".to_string())
    );
    assert_eq!(pending, PendingAgentRun(None));
}

#[test]
fn the_latest_request_of_each_kind_counts() {
    let mut requests = vec![
        HostRequest::OpenWorkspace(path("/stale")),
        HostRequest::RunAgent {
            cwd: path("/stale"),
            command: words(&["codex"]),
        },
    ];
    requests.extend(open_and_run());
    assert_eq!(
        last_requests(requests),
        (
            Some(path("/repo/feature")),
            Some((path("/repo/feature/sub"), words(&["aider"])))
        )
    );
    assert_eq!(last_requests(vec![]), (None, None));
}

#[test]
fn a_worktree_is_called_by_the_end_of_its_path() {
    assert_eq!(display_name(&path("/repo/feature/")), "feature");
    assert_eq!(display_name(&path("/repo/..")), "/repo/..");
    assert_eq!(
        choose_display_name(Some("name".to_string()), "whole".to_string()),
        "name"
    );
    assert_eq!(choose_display_name(None, "whole".to_string()), "whole");
}

#[test]
fn a_command_gets_a_terminal_of_its_own() {
    let mut panel = panel();
    assert_eq!(
        panel.spawn_agent_terminal(
            path("/repo/feature"),
            words(&["aider", "--resume", "a"]),
            &vec![None, Some(TaskId("zrush:/repo/feature:aider".to_string()))]
        ),
        TerminalPlan::Spawn(SpawnInTerminal {
            id: TaskId("zrush:/repo/feature:aider --resume a".to_string()),
            full_label: "zrush \u{b7} aider".to_string(),
            label: "zrush \u{b7} aider".to_string(),
            command: Some("aider".to_string()),
            args: words(&["--resume", "a"]),
            command_label: "aider --resume a".to_string(),
            cwd: Some(path("/repo/feature")),
            use_new_terminal: true,
            allow_concurrent_runs: true,
            reveal: RevealStrategy::Always,
            reveal_target: RevealTarget::Center,
            show_summary: false,
            show_command: false,
            show_rerun: false,
        })
    );
    assert_eq!(panel.error, None);
}

#[test]
fn a_running_command_is_shown_and_not_run_again() {
    let mut panel = panel();
    let id = || Some(TaskId("zrush:/repo/feature:aider".to_string()));
    assert_eq!(
        panel.spawn_agent_terminal(
            path("/repo/feature"),
            words(&["aider"]),
            &vec![None, id(), id()]
        ),
        TerminalPlan::Activate(1)
    );
}

#[test]
fn an_empty_command_is_reported() {
    let mut panel = panel();
    assert_eq!(
        panel.spawn_agent_terminal(path("/repo/feature"), vec![], &vec![]),
        TerminalPlan::EmptyCommand
    );
    assert_eq!(panel.error, Some("agent returned an empty command".to_string()));
}

#[test]
fn a_terminal_that_finds_no_place_is_reported() {
    let mut panel = panel();
    panel.terminal_spawned(Ok(true));
    assert_eq!(panel.error, None);
    panel.terminal_spawned(Ok(false));
    assert_eq!(
        panel.error,
        Some("Zed has no center pane to open the agent terminal in".to_string())
    );
    panel.terminal_spawned(Err("no pty".to_string()));
    assert_eq!(panel.error, Some("no pty".to_string()));
}

#[test]
fn the_menu_of_a_worktree_removes_it_where_it_is_clean() {
    let mut panel = panel();
    let worktree = row(feature(), RowKind::Worktree, None);
    let removal = Some(RowMenu {
        label: "Remove Worktree".to_string(),
        command: MenuCommand::RemoveWorktree {
            path: path("/repo/feature"),
        },
    });
    assert_eq!(panel.deploy_context_menu(&worktree), removal);
    panel.statuses.insert(
        path("/repo/feature"),
        GitStatus {
            ahead: 3,
            ..Default::default()
        },
    );
    assert_eq!(panel.deploy_context_menu(&worktree), removal);
    panel.statuses.insert(
        path("/repo/feature"),
        GitStatus {
            untracked: 1,
            ..Default::default()
        },
    );
    assert_eq!(panel.deploy_context_menu(&worktree), None);
    let main = row(NodeId::Worktree(path("/repo/")), RowKind::Worktree, None);
    assert_eq!(panel.deploy_context_menu(&main), None);
}

#[test]
fn the_menu_of_a_session_deletes_it() {
    let panel = panel();
    assert_eq!(
        panel.deploy_context_menu(&row(feature(), RowKind::Session, Some("a"))),
        Some(RowMenu {
            label: "Delete Session".to_string(),
            command: MenuCommand::DeleteSession {
                session_id: Some("a".to_string()),
                path: path("/repo/feature"),
            },
        })
    );
    assert_eq!(
        panel.deploy_context_menu(&row(NodeId::Orphans, RowKind::Orphan, Some("a"))),
        None
    );
    assert_eq!(
        panel.deploy_context_menu(&row(feature(), RowKind::More, None)),
        None
    );
}

#[test]
fn a_removal_is_confirmed_first() {
    let panel = panel();
    assert_eq!(
        panel.choose_menu_entry(&MenuCommand::RemoveWorktree {
            path: path("/repo/feature"),
        }),
        MenuStep::ConfirmRemoval {
            prompt: Prompt {
                level: PromptLevel::Warning,
                message: "Remove the worktree at /repo/feature?".to_string(),
                detail: "Its directory is deleted. Conversations recorded in it are kept."
                    .to_string(),
                answers: words(&["Remove", "Cancel"]),
            },
            path: path("/repo/feature"),
        }
    );
    assert_eq!(
        panel.removal_answered(path("/repo/feature"), Some(0)),
        Some(WorktreeRemoval {
            path: path("/repo/feature"),
            sessions: vec![],
            with_sessions: false,
        })
    );
    assert_eq!(panel.removal_answered(path("/repo/feature"), Some(1)), None);
    assert_eq!(panel.removal_answered(path("/repo/feature"), None), None);
    assert_eq!(
        ZrushPanel::load(None).0.removal_answered(path("/repo/feature"), Some(0)),
        None
    );
}

#[test]
fn a_deletion_is_confirmed_first() {
    let panel = panel();
    let delete = |id: Option<&str>| MenuCommand::DeleteSession {
        session_id: id.map(|id| id.to_string()),
        path: path("/repo/feature"),
    };
    let deletion = || SessionDeletion {
        agent: "codex".to_string(),
        id: "b".to_string(),
        running: true,
        worktree: path("/repo/feature"),
    };
    assert_eq!(
        panel.choose_menu_entry(&delete(Some("b"))),
        MenuStep::ConfirmDeletion {
            prompt: Prompt {
                level: PromptLevel::Warning,
                message: "Delete the conversation b?".to_string(),
                detail: "Its transcript is removed for good.".to_string(),
                answers: words(&["Delete", "Cancel"]),
            },
            deletion: deletion(),
        }
    );
    assert_eq!(panel.choose_menu_entry(&delete(Some("gone"))), MenuStep::Nothing);
    assert_eq!(panel.choose_menu_entry(&delete(None)), MenuStep::Nothing);
    let (_, resumable) = panel
        .confirm_delete_session(&"a".to_string(), &path("/repo/feature"))
        .unwrap();
    assert!(!resumable.running);
    assert_eq!(resumable.agent, "aider");
    assert_eq!(panel.deletion_answered(deletion(), Some(0)), Some(deletion()));
    assert_eq!(panel.deletion_answered(deletion(), Some(1)), None);
    assert_eq!(panel.deletion_answered(deletion(), None), None);
    assert_eq!(
        ZrushPanel::load(None).0.deletion_answered(deletion(), Some(0)),
        None
    );
}

#[test]
fn a_reply_replaces_the_users_error_and_asks_for_a_refresh() {
    let mut panel = panel();
    assert!(panel.worktree_removed(Err("dirty".to_string())).is_some());
    assert_eq!(panel.error, Some("dirty".to_string()));
    assert!(panel.worktree_removed(Ok(())).is_some());
    assert_eq!(panel.error, None);
    assert!(panel.session_deleted(Err("locked".to_string())).is_some());
    assert_eq!(panel.error, Some("locked".to_string()));
    panel.expanded.insert(&feature(), 9);
    let request = panel.session_deleted(Ok(())).unwrap();
    assert_eq!(panel.error, None);
    assert_eq!(request.expanded.get(&feature()), Some(9));
    assert!(ZrushPanel::load(None).0.session_deleted(Ok(())).is_none());
}

#[test]
fn a_row_shows_its_text_state_and_place() {
    let mut panel = panel();
    panel.statuses.insert(
        path("/repo/feature"),
        GitStatus {
            changed: 2,
            has_upstream: true,
            ..Default::default()
        },
    );
    let mut shown = row(feature(), RowKind::Worktree, None);
    assert_eq!(
        panel.render_row(&shown),
        RowView {
            clickable: true,
            text: "> feature".to_string(),
            badge: None,
            segments: Some(vec![("~2".to_string(), Color::Modified)]),
            location: Some("~/repo/feature".to_string()),
        }
    );
    shown.badge = "live".to_string();
    shown.kind = RowKind::Orphan;
    let view = panel.render_row(&shown);
    assert!(!view.clickable);
    assert_eq!(view.badge, Some("live".to_string()));
    assert_eq!(view.location, None);
    shown.node = NodeId::Orphans;
    shown.kind = RowKind::Worktree;
    shown.location = String::new();
    let view = panel.render_row(&shown);
    assert!(!view.clickable);
    assert_eq!(view.segments, None);
    assert_eq!(view.location, None);
    shown.kind = RowKind::More;
    assert!(panel.render_row(&shown).clickable);
}

#[test]
fn the_panel_shows_errors_before_rows() {
    let mut panel = panel();
    let empty = panel.render();
    assert_eq!(empty.title, "ZRUSH");
    assert_eq!(empty.count, "0 rows");
    assert_eq!(
        empty.body,
        PanelBody::Empty {
            message: "No worktrees or sessions".to_string(),
        }
    );
    panel.rows.push(row(feature(), RowKind::Worktree, None));
    let shown = panel.render();
    assert_eq!(shown.count, "1 rows");
    assert_eq!(
        shown.body,
        PanelBody::Rows(vec![panel.render_row(&panel.rows[0])])
    );
    panel.load_error = Some("git failed".to_string());
    let unavailable = |message: &str| PanelBody::Unavailable {
        title: "Zrush unavailable".to_string(),
        message: message.to_string(),
    };
    assert_eq!(panel.render().body, unavailable("git failed"));
    panel.error = Some("click failed".to_string());
    assert_eq!(panel.render().body, unavailable("click failed"));
}

#[test]
fn only_a_plain_click_activates() {
    assert!(click_activates(false, false));
    assert!(!click_activates(true, false));
    assert!(!click_activates(false, true));
    assert!(!click_activates(true, true));
}

#[test]
fn a_moved_panel_is_found_where_it_was_put() {
    let mut content = SettingsContent { zrush_panel: None };
    let mut place = |position: DockPosition| {
        ZrushPanel::set_position(&mut content, position);
        ZrushPanel::position(&ZrushPanelSettings::from_settings(&content))
    };
    assert_eq!(place(DockPosition::Right), DockPosition::Right);
    assert_eq!(place(DockPosition::Left), DockPosition::Left);
    assert_eq!(place(DockPosition::Bottom), DockPosition::Left);
    assert!(ZrushPanel::position_is_valid(DockPosition::Left));
    assert!(ZrushPanel::position_is_valid(DockPosition::Right));
    assert!(!ZrushPanel::position_is_valid(DockPosition::Bottom));
    let written = SettingsContent {
        zrush_panel: Some(PanelSettingsContent {
            dock: Some(DockSide::Right),
        }),
    };
    assert_eq!(
        ZrushPanelSettings::from_settings(&written),
        ZrushPanelSettings {
            dock: DockSide::Right,
        }
    );
}

#[test]
fn the_panel_is_registered_as_zrush() {
    assert_eq!(ZrushPanel::persistent_name(), "Zrush");
    assert_eq!(ZrushPanel::panel_key(), "ZrushPanel");
    assert_eq!(ZrushPanel::icon_tooltip(), Some("Zrush"));
    assert!(ZrushPanel::starts_open());
    assert_eq!(ZrushPanel::activation_priority(), 3);
}
