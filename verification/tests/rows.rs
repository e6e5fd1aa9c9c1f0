use std::path::PathBuf;
use zrush_panel::model::{GitStatus, RowKind, SessionKind};
use zrush_panel::pending::PendingAgentRun;
use zrush_panel::row::{agent_for_row, menu_action_for_row, RowAction};
use zrush_panel::status::{status_segments, Color};
use zrush_panel::terminal::{task_id_in, zrush_task_id, TaskId};

fn pending(worktree: &str) -> PendingAgentRun {
    let mut pending = PendingAgentRun::default();
    pending.set(
        PathBuf::from(worktree),
        PathBuf::from(worktree),
        vec!["aider".to_string()],
    );
    pending
}

#[test]
fn a_pending_run_is_refused_to_a_workspace_opened_for_another_worktree() {
    let mut run = pending("/repo/feature");
    assert!(run.take_for(&PathBuf::from("/repo/other")).is_none());
    assert!(run.take_for(&PathBuf::from("/repo/feature")).is_some());
}

#[test]
fn a_pending_run_fires_at_most_once() {
    let mut run = pending("/repo/feature");
    assert!(run.take_for(&PathBuf::from("/repo/feature")).is_some());
    assert!(run.take_for(&PathBuf::from("/repo/feature")).is_none());
}

#[test]
fn clearing_drops_a_run_left_behind_by_a_failed_switch() {
    let mut run = pending("/repo/feature");
    run.clear();
    assert!(run.take_for(&PathBuf::from("/repo/feature")).is_none());
}

#[test]
fn a_pending_run_is_handed_over_whole() {
    let mut run = PendingAgentRun::default();
    assert!(run.take_for(&PathBuf::from("/repo/feature")).is_none());
    run.set(PathBuf::from("/old"), PathBuf::from("/old"), vec!["codex".to_string()]);
    run.set(
        PathBuf::from("/repo/feature"),
        PathBuf::from("/repo/feature/sub"),
        vec!["aider".to_string(), "--resume".to_string(), "a".to_string()],
    );
    assert!(run.take_for(&PathBuf::from("/old")).is_none());
    assert_eq!(
        run.take_for(&PathBuf::from("/repo/feature")),
        Some((
            PathBuf::from("/repo/feature/sub"),
            vec!["aider".to_string(), "--resume".to_string(), "a".to_string()]
        ))
    );
}

#[test]
fn a_pending_run_knows_its_worktree_however_it_is_spelled() {
    let mut run = pending("/repo/feature");
    assert!(run.take_for(&PathBuf::from("/repo/feature/..")).is_none());
    assert!(run.take_for(&PathBuf::from("/repo//./feature/")).is_some());
}

#[test]
fn two_sessions_in_one_worktree_own_separate_terminals() {
    let cwd = PathBuf::from("/repo/feature");
    let resume_a = vec!["aider".to_string(), "--resume".to_string(), "a".to_string()];
    let resume_b = vec!["aider".to_string(), "--resume".to_string(), "b".to_string()];
    assert_ne!(zrush_task_id(&cwd, &resume_a), zrush_task_id(&cwd, &resume_b));
}

#[test]
fn the_same_session_keeps_the_same_terminal() {
    let cwd = PathBuf::from("/repo/feature");
    let resume = vec!["aider".to_string(), "--resume".to_string(), "a".to_string()];
    assert_eq!(zrush_task_id(&cwd, &resume), zrush_task_id(&cwd, &resume));
}

#[test]
fn the_same_command_in_two_worktrees_gets_two_terminals() {
    let start = vec!["aider".to_string()];
    assert_ne!(
        zrush_task_id(&PathBuf::from("/repo/main"), &start),
        zrush_task_id(&PathBuf::from("/repo/feature"), &start)
    );
}

#[test]
fn a_task_id_spells_out_directory_and_command() {
    let resume = vec!["aider".to_string(), "--resume".to_string(), "a".to_string()];
    assert_eq!(
        zrush_task_id(&PathBuf::from("/repo/feature"), &resume),
        TaskId("zrush:/repo/feature:aider --resume a".to_string())
    );
    assert_eq!(task_id_in("", &[]), TaskId("zrush::".to_string()));
    assert_eq!(
        task_id_in("d", &["".to_string(), "x".to_string()]),
        TaskId("zrush:d: x".to_string())
    );
}

#[test]
fn commands_whose_words_hold_spaces_can_share_a_terminal() {
    assert_eq!(
        task_id_in("d", &["a b".to_string()]),
        task_id_in("d", &["a".to_string(), "b".to_string()])
    );
}

#[test]
fn a_clean_worktree_tracking_an_upstream_shows_nothing() {
    let clean = GitStatus {
        has_upstream: true,
        ..Default::default()
    };
    assert!(status_segments(&clean).is_empty());
}

#[test]
fn each_kind_of_change_gets_its_own_colour() {
    let status = GitStatus {
        changed: 3,
        untracked: 1,
        ahead: 2,
        behind: 4,
        has_upstream: true,
    };
    assert_eq!(
        status_segments(&status),
        vec![
            ("~3".to_string(), Color::Modified),
            ("?1".to_string(), Color::Created),
            ("\u{2191}2".to_string(), Color::Success),
            ("\u{2193}4".to_string(), Color::Info),
        ]
    );
}

#[test]
fn a_branch_without_an_upstream_is_flagged() {
    let orphan = GitStatus::default();
    let segments = status_segments(&orphan);
    assert_eq!(segments, vec![("\u{26a0}".to_string(), Color::Warning)]);
}

#[test]
fn counts_are_written_in_decimal() {
    let status = GitStatus {
        changed: 1234567890,
        untracked: 10,
        ahead: 0,
        behind: usize::MAX,
        has_upstream: false,
    };
    assert_eq!(
        status_segments(&status),
        vec![
            ("~1234567890".to_string(), Color::Modified),
            ("?10".to_string(), Color::Created),
            (format!("\u{2193}{}", usize::MAX), Color::Info),
            ("\u{26a0}".to_string(), Color::Warning),
        ]
    );
}

#[test]
fn a_bound_session_resumes_its_own_agent() {
    assert_eq!(
        agent_for_row(
            Some(("aider", "session-1", SessionKind::Resumable)),
            Some("codex")
        ),
        Some(("aider".to_string(), Some("session-1".to_string())))
    );
}

#[test]
fn a_dirty_worktree_is_not_offered_for_removal() {
    assert_eq!(
        menu_action_for_row(RowKind::Worktree, false, true),
        None,
        "git worktree remove refuses uncommitted work, so offering it would only fail"
    );
}

#[test]
fn the_main_worktree_is_never_offered_for_removal() {
    assert_eq!(menu_action_for_row(RowKind::Worktree, true, false), None);
}

#[test]
fn a_clean_side_worktree_can_be_removed() {
    assert_eq!(
        menu_action_for_row(RowKind::Worktree, false, false),
        Some(RowAction::RemoveWorktree)
    );
}

#[test]
fn session_rows_offer_deletion_and_structural_rows_offer_nothing() {
    assert_eq!(
        menu_action_for_row(RowKind::Session, false, false),
        Some(RowAction::DeleteSession)
    );
    assert_eq!(
        menu_action_for_row(RowKind::Orphan, false, false),
        Some(RowAction::DeleteSession)
    );
    assert_eq!(menu_action_for_row(RowKind::Orphans, false, false), None);
    assert_eq!(menu_action_for_row(RowKind::More, false, false), None);
}

#[test]
fn session_rows_offer_deletion_in_the_main_and_in_a_dirty_worktree() {
    assert_eq!(
        menu_action_for_row(RowKind::Session, true, true),
        Some(RowAction::DeleteSession)
    );
    assert_eq!(
        menu_action_for_row(RowKind::Orphan, true, true),
        Some(RowAction::DeleteSession)
    );
}

#[test]
fn a_live_session_is_never_resumed() {
    assert_eq!(
        agent_for_row(
            Some(("aider", "session-1", SessionKind::Live)),
            Some("aider")
        ),
        None
    );
}

#[test]
fn an_unbound_row_starts_the_active_agent() {
    assert_eq!(
        agent_for_row(None, Some("aider")),
        Some(("aider".to_string(), None))
    );
}

#[test]
fn an_unbound_row_without_an_active_agent_stays_a_plain_worktree_switch() {
    assert_eq!(agent_for_row(None, None), None);
}
