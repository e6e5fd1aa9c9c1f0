//! What the panel shows.

use crate::activation::ActivateStep;
use crate::model::{NodeId, Row, RowKind};
use crate::panel::ZrushPanel;
use crate::path::{components, raw};
use crate::path_map::lookup;
use crate::status::{pieces, segment_views, status_segments, Color};
use crate::text::{append_decimal, decimal, text_of};
use vstd::prelude::*;
use vstd::string::*;

verus! {

/// What a row shows.
#[derive(Debug, PartialEq, Eq)]
pub struct RowView {
    /// Whether a click on it is acted on.
    pub clickable: bool,
    pub text: String,
    /// A remark at the end of the line.
    pub badge: Option<String>,
    /// The git state of the row's worktree, where it is known.
    pub segments: Option<Vec<(String, Color)>>,
    pub location: Option<String>,
}

/// What the panel shows below its header.
#[derive(Debug, PartialEq, Eq)]
pub enum PanelBody {
    /// Something went wrong.
    Unavailable { title: String, message: String },
    /// There is nothing to show.
    Empty { message: String },
    Rows(Vec<RowView>),
}

/// What the panel shows.
#[derive(Debug, PartialEq, Eq)]
pub struct PanelView {
    pub title: String,
    pub count: String,
    pub body: PanelBody,
}

/// Whether a click on a row is acted on: on a line that shows more, and on a
/// line of a worktree that is neither an orphaned session nor their heading.
pub open spec fn clickable(row: Row) -> bool {
    ||| row.kind == RowKind::More
    ||| row.node is Worktree && row.kind != RowKind::Orphan && row.kind != RowKind::Orphans
}

/// The text, unless there is none.
pub open spec fn unless_empty(text: Seq<char>) -> Option<Seq<char>> {
    if text.len() == 0 {
        None
    } else {
        Some(text)
    }
}

impl ZrushPanel {
    /// The pieces of git state that a row shows: those of its worktree, where
    /// its state is known.
    pub open spec fn pieces_for(self, row: Row) -> Option<Seq<(Seq<char>, Color)>> {
        match row.node {
            NodeId::Worktree(path) => match lookup(self.statuses@, path) {
                Some(status) => Some(pieces(status)),
                None => None,
            },
            NodeId::Orphans => None,
        }
    }

    /// Whether `view` is how this panel shows `row`.
    pub open spec fn shows(self, row: Row, view: RowView) -> bool {
        &&& view.clickable == clickable(row)
        &&& view.text@ == row.glyph@ + row.label@
        &&& text_of(view.badge) == unless_empty(row.badge@)
        &&& match view.segments {
            Some(segments) => self.pieces_for(row) == Some(segment_views(segments@)),
            None => self.pieces_for(row) is None,
        }
        &&& text_of(view.location) == (if row.kind == RowKind::Worktree {
            unless_empty(row.location@)
        } else {
            None
        })
    }

    /// The message the panel shows in place of its rows: the error of what the
    /// user did, else that of the last refresh.
    pub open spec fn message(self) -> Option<Seq<char>> {
        match self.error {
            Some(error) => Some(error@),
            None => text_of(self.load_error),
        }
    }

    /// What `row` shows.
    pub fn render_row(&self, row: &Row) -> (view: RowView)
        ensures
            self.shows(*row, view),
    {
        let (on_worktree, status) = match &row.node {
            NodeId::Worktree(path) => (true, self.statuses.get(path)),
            NodeId::Orphans => (false, None),
        };
        let clickable = row.kind == RowKind::More || (on_worktree && !(row.kind == RowKind::Orphan
            || row.kind == RowKind::Orphans));
        let mut text = row.glyph.clone();
        text.append(row.label.as_str());
        let badge = nonempty(&row.badge);
        let segments = match status {
            Some(status) => Some(status_segments(&status)),
            None => None,
        };
        let location = if row.kind == RowKind::Worktree {
            nonempty(&row.location)
        } else {
            None
        };
        RowView { clickable, text, badge, segments, location }
    }

    /// What the panel shows.
    pub fn render(&self) -> (view: PanelView)
        ensures
            view.title@ == "ZRUSH"@,
            view.count@ == decimal(self.rows@.len()) + " rows"@,
            match self.message() {
                Some(shown) => view.body matches PanelBody::Unavailable { title, message } && title@
                    == "Zrush unavailable"@ && message@ == shown,
                None => if self.rows@.len() == 0 {
                    view.body matches PanelBody::Empty { message } && message@
                        == "No worktrees or sessions"@
                } else {
                    view.body matches PanelBody::Rows(views) && views@.len() == self.rows@.len()
                        && forall|i: int|
                        0 <= i < self.rows@.len() ==> self.shows(
                            #[trigger] self.rows@[i],
                            views@[i],
                        )
                },
            },
    {
        let mut count = String::new();
        append_decimal(&mut count, self.rows.len());
        count.append(" rows");
        assert(count@ =~= decimal(self.rows@.len()) + " rows"@);
        let message = match &self.error {
            Some(error) => Some(error.clone()),
            None => match &self.load_error {
                Some(error) => Some(error.clone()),
                None => None,
            },
        };
        let body = match message {
            Some(message) => PanelBody::Unavailable {
                title: "Zrush unavailable".to_string(),
                message,
            },
            None => {
                if self.rows.len() == 0 {
                    PanelBody::Empty { message: "No worktrees or sessions".to_string() }
                } else {
                    PanelBody::Rows(self.render_rows())
                }
            },
        };
        PanelView { title: "ZRUSH".to_string(), count, body }
    }

    fn render_rows(&self) -> (views: Vec<RowView>)
        ensures
            views@.len() == self.rows@.len(),
            forall|i: int|
                0 <= i < self.rows@.len() ==> self.shows(#[trigger] self.rows@[i], views@[i]),
    {
        let mut views: Vec<RowView> = Vec::new();
        let mut at: usize = 0;
        while at < self.rows.len()
            invariant
                at <= self.rows@.len(),
                views@.len() == at,
                forall|i: int| 0 <= i < at ==> self.shows(#[trigger] self.rows@[i], views@[i]),
            decreases self.rows@.len() - at,
        {
            views.push(self.render_row(&self.rows[at]));
            at += 1;
        }
        views
    }
}

fn nonempty(text: &String) -> (shown: Option<String>)
    ensures
        text_of(shown) == unless_empty(text@),
{
    if text.as_str().is_empty() {
        None
    } else {
        Some(text.clone())
    }
}

/// Whether a click is acted on: not one with the right button, which opens the
/// menu, nor the one that only brings the window to the front.
pub fn click_activates(is_right_click: bool, is_first_focus: bool) -> (activates: bool)
    ensures
        activates == !(is_right_click || is_first_focus),
{
    !(is_right_click || is_first_focus)
}

/// A row that can be clicked has something to do while the panel has a service,
/// and a row of no worktree that cannot be clicked has nothing to do.
pub proof fn law_a_clickable_row_acts(panel: ZrushPanel, row: Row, step: ActivateStep)
    requires
        step.answers(panel, row),
    ensures
        panel.service is Some && clickable(row) ==> step != ActivateStep::Ignored,
        row.node is Orphans && !clickable(row) ==> step == ActivateStep::Ignored,
{
}

/// The panel shows its rows only while there is no error to show, and the error
/// of what the user did comes before that of a refresh.
pub proof fn law_the_users_error_comes_first(panel: ZrushPanel)
    ensures
        panel.message() is None <==> panel.error is None && panel.load_error is None,
        panel.error matches Some(error) ==> panel.message() == Some(error@),
{
}

/// A row shows its glyph and label, its badge unless that is empty, and its place
/// where it is a worktree's and has one; it can be clicked where a click leads
/// somewhere.
pub proof fn law_a_row_shows_what_it_holds(panel: ZrushPanel, row: Row, view: RowView)
    requires
        panel.shows(row, view),
    ensures
        view.text@ == row.glyph@ + row.label@,
        view.badge is Some <==> row.badge@.len() > 0,
        view.badge matches Some(badge) ==> badge@ == row.badge@,
        view.location is Some <==> row.kind == RowKind::Worktree && row.location@.len() > 0,
        view.location matches Some(location) ==> location@ == row.location@,
        view.clickable <==> row.kind == RowKind::More || (row.node is Worktree && (row.kind
            == RowKind::Worktree || row.kind == RowKind::Session)),
{
}

/// A row shows the git state on record for its worktree, every piece of it, and
/// none where none is on record or it belongs to no worktree.
pub proof fn law_a_row_shows_the_state_on_record(panel: ZrushPanel, row: Row, view: RowView)
    requires
        panel.shows(row, view),
    ensures
        match row.node {
            NodeId::Worktree(path) => {
                let key = components(raw(path));
                &&& view.segments is Some <==> panel.statuses@.dom().contains(key)
                &&& view.segments matches Some(segments) ==> {
                    let state = pieces(panel.statuses@[key]);
                    &&& segments@.len() == state.len()
                    &&& forall|i: int|
                        0 <= i < state.len() ==> (#[trigger] segments@[i]).0@ == state[i].0
                            && segments@[i].1 == state[i].1
                }
            },
            NodeId::Orphans => view.segments is None,
        },
{
    if let Some(segments) = view.segments {
        assert forall|i: int| 0 <= i < segments@.len() implies (#[trigger] segments@[i]).0@
            == segment_views(segments@)[i].0 && segments@[i].1 == segment_views(
            segments@,
        )[i].1 by {}
    }
}

/// The message shown is the user's error, else the load error, else none.
pub proof fn law_the_load_error_comes_second(panel: ZrushPanel)
    ensures
        panel.error is Some ==> panel.message() == Some(panel.error->0@),
        panel.error is None && panel.load_error is Some ==> panel.message() == Some(
            panel.load_error->0@,
        ),
        panel.error is None && panel.load_error is None ==> panel.message() is None,
{
}

/// A row can be clicked exactly where it shows more, or is a worktree's own row
/// or one of its sessions'.
pub proof fn law_worktrees_and_their_sessions_can_be_clicked(row: Row)
    ensures
        clickable(row) <==> row.kind == RowKind::More || (row.node is Worktree && (row.kind
            == RowKind::Worktree || row.kind == RowKind::Session)),
{
}

} // verus!
