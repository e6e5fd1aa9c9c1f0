//! What the context menu of a row offers, what is asked before it is done, and
//! what is done.

use crate::activation::{find_session, session_with};
use crate::model::{NodeId, Row, RowKind, Session, SessionKind};
use crate::panel::{RefreshRequest, ZrushPanel};
use crate::path::{components, display, display_text, raw, same_path};
use crate::path_map::lookup;
use crate::row::{menu_action_for_row, offered, RowAction};
use std::path::PathBuf;
use vstd::prelude::*;
use vstd::string::*;

verus! {

/// What the entry of a context menu does.
#[derive(Debug, PartialEq, Eq)]
pub enum MenuCommand {
    RemoveWorktree { path: PathBuf },
    DeleteSession { session_id: Option<String>, path: PathBuf },
}

/// The context menu of a row: its one entry.
#[derive(Debug, PartialEq, Eq)]
pub struct RowMenu {
    pub label: String,
    pub command: MenuCommand,
}

/// How grave a question is.
#[derive(Debug, Clone, Copy, PartialEq, Eq, Structural)]
pub enum PromptLevel {
    Info,
    Warning,
    Critical,
}

/// A question put to the user.
#[derive(Debug, PartialEq, Eq)]
pub struct Prompt {
    pub level: PromptLevel,
    pub message: String,
    pub detail: String,
    pub answers: Vec<String>,
}

/// A worktree that the service is to remove.
#[derive(Debug, PartialEq, Eq)]
pub struct WorktreeRemoval {
    pub path: PathBuf,
    /// The conversations that the service is told are held in it.
    pub sessions: Vec<Session>,
    /// Whether the conversations held in it go too.
    pub with_sessions: bool,
}

/// A conversation that the service is to delete.
#[derive(Debug, PartialEq, Eq)]
pub struct SessionDeletion {
    pub agent: String,
    pub id: String,
    pub running: bool,
    pub worktree: PathBuf,
}

/// What is asked once a menu entry has been chosen.
#[derive(Debug, PartialEq, Eq)]
pub enum MenuStep {
    /// Nothing: there is nothing to act on.
    Nothing,
    ConfirmRemoval { prompt: Prompt, path: PathBuf },
    ConfirmDeletion { prompt: Prompt, deletion: SessionDeletion },
}

impl Prompt {
    /// Whether this warns with `message` and `detail` and lets the user go on
    /// with `go_on` or cancel.
    pub open spec fn warns(self, message: Seq<char>, detail: Seq<char>, go_on: Seq<char>) -> bool {
        &&& self.level == PromptLevel::Warning
        &&& self.message@ == message
        &&& self.detail@ == detail
        &&& self.answers@.len() == 2
        &&& self.answers@[0]@ == go_on
        &&& self.answers@[1]@ == "Cancel"@
    }

    /// Whether this asks for leave to remove the worktree written `shown`.
    pub open spec fn asks_for_removal(self, shown: Seq<char>) -> bool {
        self.warns(
            "Remove the worktree at "@ + shown + "?"@,
            "Its directory is deleted. Conversations recorded in it are kept."@,
            "Remove"@,
        )
    }

    /// Whether this asks for leave to delete the conversation `id`.
    pub open spec fn asks_for_deletion(self, id: Seq<char>) -> bool {
        self.warns(
            "Delete the conversation "@ + id + "?"@,
            "Its transcript is removed for good."@,
            "Delete"@,
        )
    }
}

fn warning(message: String, detail: &str, go_on: &str) -> (prompt: Prompt)
    ensures
        prompt.warns(message@, detail@, go_on@),
{
    let mut answers: Vec<String> = Vec::new();
    answers.push(go_on.to_string());
    answers.push("Cancel".to_string());
    Prompt { level: PromptLevel::Warning, message, detail: detail.to_string(), answers }
}

/// Asks for leave to remove the worktree written `shown`.
pub fn removal_prompt(shown: &str) -> (prompt: Prompt)
    ensures
        prompt.asks_for_removal(shown@),
{
    let mut message = "Remove the worktree at ".to_string();
    message.append(shown);
    message.append("?");
    warning(message, "Its directory is deleted. Conversations recorded in it are kept.", "Remove")
}

/// Asks for leave to delete the conversation `id`.
pub fn deletion_prompt(id: &str) -> (prompt: Prompt)
    ensures
        prompt.asks_for_deletion(id@),
{
    let mut message = "Delete the conversation ".to_string();
    message.append(id);
    message.append("?");
    warning(message, "Its transcript is removed for good.", "Delete")
}

/// Whether the user gave leave: the first answer does, the other does not, nor
/// does a question that was dismissed.
pub open spec fn leave_given(answer: Option<usize>) -> bool {
    answer == Some(0usize)
}

impl ZrushPanel {
    /// Whether `path` is the main worktree.
    pub open spec fn is_main_root(self, path: PathBuf) -> bool {
        self.service matches Some(service) && same_path(service.main_root, path)
    }

    /// Whether the worktree at `path` is known to hold work that git will not
    /// throw away.
    pub open spec fn is_dirty(self, path: PathBuf) -> bool {
        lookup(self.statuses@, path) matches Some(status) && status.dirty()
    }

    /// Whether `menu` is the context menu of `row`.
    pub open spec fn offers(self, row: Row, menu: Option<RowMenu>) -> bool {
        match row.node {
            NodeId::Worktree(path) => match offered(
                row.kind,
                self.is_main_root(path),
                self.is_dirty(path),
            ) {
                Some(RowAction::RemoveWorktree) => menu matches Some(menu) && menu.label@
                    == "Remove Worktree"@ && menu.command == (MenuCommand::RemoveWorktree {
                    path,
                }),
                Some(RowAction::DeleteSession) => menu matches Some(menu) && menu.label@
                    == "Delete Session"@ && menu.command == (MenuCommand::DeleteSession {
                    session_id: row.session_id,
                    path,
                }),
                None => menu is None,
            },
            NodeId::Orphans => menu is None,
        }
    }

    /// The context menu of `row`, where it has one.
    pub fn deploy_context_menu(&self, row: &Row) -> (menu: Option<RowMenu>)
        ensures
            self.offers(*row, menu),
    {
        let path = match &row.node {
            NodeId::Worktree(path) => path,
            NodeId::Orphans => return None,
        };
        let is_main_root = match &self.service {
            Some(service) => service.main_root == *path,
            None => false,
        };
        let is_dirty = match self.statuses.get(path) {
            Some(status) => status.is_dirty(),
            None => false,
        };
        match menu_action_for_row(row.kind, is_main_root, is_dirty) {
            Some(RowAction::RemoveWorktree) => Some(
                RowMenu {
                    label: "Remove Worktree".to_string(),
                    command: MenuCommand::RemoveWorktree { path: path.clone() },
                },
            ),
            Some(RowAction::DeleteSession) => Some(
                RowMenu {
                    label: "Delete Session".to_string(),
                    command: MenuCommand::DeleteSession {
                        session_id: row.session_id.clone(),
                        path: path.clone(),
                    },
                },
            ),
            None => None,
        }
    }

    /// What is asked once `command` has been chosen.
    pub fn choose_menu_entry(&self, command: &MenuCommand) -> (step: MenuStep)
        ensures
            match *command {
                MenuCommand::RemoveWorktree { path } => step matches MenuStep::ConfirmRemoval {
                    prompt,
                    path: asked,
                } && asked == path && prompt.asks_for_removal(display_text(raw(path))),
                MenuCommand::DeleteSession { session_id: Some(id), path } => match session_with(
                    self.sessions@,
                    id@,
                ) {
                    Some(session) => step matches MenuStep::ConfirmDeletion { prompt, deletion }
                        && prompt.asks_for_deletion(id@) && deletion.agent == session.agent
                        && deletion.id == id && deletion.running == (session.kind
                        == SessionKind::Live) && deletion.worktree == path,
                    None => step == MenuStep::Nothing,
                },
                MenuCommand::DeleteSession { session_id: None, .. } => step == MenuStep::Nothing,
            },
    {
        match command {
            MenuCommand::RemoveWorktree { path } => MenuStep::ConfirmRemoval {
                prompt: self.confirm_remove_worktree(path),
                path: path.clone(),
            },
            MenuCommand::DeleteSession { session_id, path } => match session_id {
                Some(id) => match self.confirm_delete_session(id, path) {
                    Some((prompt, deletion)) => MenuStep::ConfirmDeletion { prompt, deletion },
                    None => MenuStep::Nothing,
                },
                None => MenuStep::Nothing,
            },
        }
    }

    /// Asks for leave to remove the worktree at `path`.
    pub fn confirm_remove_worktree(&self, path: &PathBuf) -> (prompt: Prompt)
        ensures
            prompt.asks_for_removal(display_text(raw(*path))),
    {
        removal_prompt(display(path).as_str())
    }

    /// Asks for leave to delete the session `id` of `worktree`, and says what
    /// the service will have to delete. A session the panel does not know
    /// cannot be deleted.
    pub fn confirm_delete_session(&self, id: &String, worktree: &PathBuf) -> (asked: Option<
        (Prompt, SessionDeletion),
    >)
        ensures
            match session_with(self.sessions@, id@) {
                Some(session) => asked matches Some((prompt, deletion)) && {
                    &&& prompt.asks_for_deletion(id@)
                    &&& deletion.agent == session.agent
                    &&& deletion.id == *id
                    &&& deletion.running == (session.kind == SessionKind::Live)
                    &&& deletion.worktree == *worktree
                },
                None => asked is None,
            },
    {
        match find_session(&self.sessions, id) {
            Some(at) => {
                let session = &self.sessions[at];
                let deletion = SessionDeletion {
                    agent: session.agent.clone(),
                    id: id.clone(),
                    running: session.kind == SessionKind::Live,
                    worktree: worktree.clone(),
                };
                Some((deletion_prompt(id.as_str()), deletion))
            },
            None => None,
        }
    }

    /// What the service is to remove once the user has answered. Removing a
    /// worktree and deleting the conversations held in it are two decisions,
    /// and this is only the first: no conversation is named, and none goes.
    pub fn removal_answered(&self, path: PathBuf, answer: Option<usize>) -> (removal: Option<
        WorktreeRemoval,
    >)
        ensures
            if leave_given(answer) && self.service is Some {
                removal matches Some(removal) && removal.path == path && removal.sessions@
                    == Seq::<Session>::empty() && !removal.with_sessions
            } else {
                removal is None
            },
    {
        if answer == Some(0usize) && self.service.is_some() {
            Some(WorktreeRemoval { path, sessions: Vec::new(), with_sessions: false })
        } else {
            None
        }
    }

    /// What the service is to delete once the user has answered.
    pub fn deletion_answered(&self, deletion: SessionDeletion, answer: Option<usize>) -> (allowed:
        Option<SessionDeletion>)
        ensures
            allowed == (if leave_given(answer) && self.service is Some {
                Some(deletion)
            } else {
                None
            }),
    {
        if answer == Some(0usize) && self.service.is_some() {
            Some(deletion)
        } else {
            None
        }
    }

    /// This panel once the service has replied to a removal or a deletion: a
    /// success takes down the error of whatever the user did before.
    pub open spec fn after_reply(self, reply: Result<(), String>) -> Self {
        match reply {
            Ok(_) => ZrushPanel { error: None, ..self },
            Err(message) => ZrushPanel { error: Some(message), ..self },
        }
    }

    /// Takes in the service's reply to a removal, and asks for a refresh whatever
    /// the reply.
    pub fn worktree_removed(&mut self, reply: Result<(), String>) -> (request: Option<
        RefreshRequest,
    >)
        ensures
            *final(self) == old(self).after_reply(reply),
            final(self).asks_for(request),
    {
        match reply {
            Ok(_) => {
                self.error = None;
            },
            Err(message) => {
                self.error = Some(message);
            },
        }
        self.refresh()
    }

    /// Takes in the service's reply to a deletion, and asks for a refresh whatever
    /// the reply.
    pub fn session_deleted(&mut self, reply: Result<(), String>) -> (request: Option<
        RefreshRequest,
    >)
        ensures
            *final(self) == old(self).after_reply(reply),
            final(self).asks_for(request),
    {
        match reply {
            Ok(_) => {
                self.error = None;
            },
            Err(message) => {
                self.error = Some(message);
            },
        }
        self.refresh()
    }
}

/// No menu removes the main worktree or one that is known to be dirty, and what
/// it removes is the row's own worktree.
pub proof fn law_no_menu_removes_what_must_stay(
    panel: ZrushPanel,
    row: Row,
    menu: RowMenu,
    path: PathBuf,
)
    requires
        panel.offers(row, Some(menu)),
        menu.command == (MenuCommand::RemoveWorktree { path }),
    ensures
        row.node == NodeId::Worktree(path),
        !panel.is_main_root(path),
        !panel.is_dirty(path),
{
}

/// A row of a worktree offers to remove it exactly where it is not the main one
/// and no changed and no untracked files of it are known.
pub proof fn law_removal_goes_by_the_counts(
    panel: ZrushPanel,
    row: Row,
    menu: Option<RowMenu>,
    path: PathBuf,
)
    requires
        panel.offers(row, menu),
        row.node == NodeId::Worktree(path),
        row.kind == RowKind::Worktree,
    ensures
        ({
            let key = components(raw(path));
            let known = panel.statuses@.dom().contains(key);
            let changed = known && panel.statuses@[key].changed != 0;
            let untracked = known && panel.statuses@[key].untracked != 0;
            let main = panel.service is Some && components(raw(panel.service->0.main_root)) == key;
            menu is Some <==> !main && !changed && !untracked
        }),
        menu matches Some(menu) ==> menu.label@ == "Remove Worktree"@ && menu.command == (
        MenuCommand::RemoveWorktree { path }),
{
}

/// A row of a session that belongs to a worktree offers to delete the session it
/// is bound to, whatever the state of the worktree; rows of any other kind, and
/// rows of no worktree, offer nothing.
pub proof fn law_deletion_is_offered_on_every_session_of_a_worktree(
    panel: ZrushPanel,
    row: Row,
    menu: Option<RowMenu>,
)
    requires
        panel.offers(row, menu),
        row.kind != RowKind::Worktree,
    ensures
        menu is Some <==> row.node is Worktree && (row.kind == RowKind::Session || row.kind
            == RowKind::Orphan),
        menu matches Some(menu) ==> menu.label@ == "Delete Session"@ && menu.command == (
        MenuCommand::DeleteSession { session_id: row.session_id, path: row.node->Worktree_0 }),
{
}

/// Nothing is offered on a row of no worktree.
pub proof fn law_nothing_is_offered_without_a_worktree(
    panel: ZrushPanel,
    row: Row,
    menu: Option<RowMenu>,
)
    requires
        panel.offers(row, menu),
        row.node is Orphans,
    ensures
        menu is None,
{
}

/// A path is the main worktree's exactly where it has the components of the
/// service's main root, and is known to be dirty exactly where changed or
/// untracked files are on record for it.
pub proof fn law_main_and_dirty_worktrees(panel: ZrushPanel, path: PathBuf)
    ensures
        panel.is_main_root(path) <==> panel.service is Some && components(
            raw(panel.service->0.main_root),
        ) == components(raw(path)),
        panel.is_dirty(path) <==> panel.statuses@.dom().contains(components(raw(path))) && (
        panel.statuses@[components(raw(path))].changed != 0
            || panel.statuses@[components(raw(path))].untracked != 0),
{
}

/// The question before a removal names the worktree and says what goes and what
/// stays; the one before a deletion names the conversation. Both are warnings,
/// and going on is the first answer of two.
pub proof fn law_the_questions_name_what_goes(
    removal: Prompt,
    shown: Seq<char>,
    deletion: Prompt,
    id: Seq<char>,
)
    requires
        removal.asks_for_removal(shown),
        deletion.asks_for_deletion(id),
    ensures
        removal.level == PromptLevel::Warning && deletion.level == PromptLevel::Warning,
        removal.message@ == "Remove the worktree at "@ + shown + "?"@,
        removal.detail@ == "Its directory is deleted. Conversations recorded in it are kept."@,
        deletion.message@ == "Delete the conversation "@ + id + "?"@,
        deletion.detail@ == "Its transcript is removed for good."@,
        removal.answers@.len() == 2 && deletion.answers@.len() == 2,
        removal.answers@[0]@ == "Remove"@ && removal.answers@[1]@ == "Cancel"@,
        deletion.answers@[0]@ == "Delete"@ && deletion.answers@[1]@ == "Cancel"@,
{
}

/// Leave is given by the first answer alone.
pub proof fn law_only_the_first_answer_gives_leave(answer: Option<usize>)
    ensures
        leave_given(answer) <==> answer is Some && answer->0 == 0,
{
}

/// A reply that is an error is put up, one that is not takes the error down, and
/// nothing else of the panel changes.
pub proof fn law_a_reply_changes_the_error_alone(panel: ZrushPanel, reply: Result<(), String>)
    ensures
        ({
            let after = panel.after_reply(reply);
            &&& after.error == (match reply {
                Ok(_) => None,
                Err(message) => Some(message),
            })
            &&& after.service == panel.service
            &&& after.rows == panel.rows
            &&& after.sessions == panel.sessions
            &&& after.statuses == panel.statuses
            &&& after.collapsed == panel.collapsed
            &&& after.expanded == panel.expanded
            &&& after.load_error == panel.load_error
            &&& after.active == panel.active
        }),
{
}

} // verus!
