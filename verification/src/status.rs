//! The git state of a worktree, piece by piece.

use crate::model::GitStatus;
use crate::text::{append_decimal, decimal};
use vstd::prelude::*;

verus! {

/// The colour that carries a piece's meaning.
#[derive(Debug, Clone, Copy, PartialEq, Eq, Structural)]
pub enum Color {
    Modified,
    Created,
    Success,
    Info,
    Warning,
}

/// A piece, where it is shown.
pub open spec fn piece(shown: bool, text: Seq<char>, color: Color) -> Seq<(Seq<char>, Color)> {
    if shown {
        seq![(text, color)]
    } else {
        Seq::empty()
    }
}

/// The pieces of a worktree's git state in the order they are shown: changed
/// and untracked files, commits ahead and behind, a missing upstream.
pub open spec fn pieces(status: GitStatus) -> Seq<(Seq<char>, Color)> {
    piece(status.changed > 0, "~"@ + decimal(status.changed as nat), Color::Modified) + piece(
        status.untracked > 0,
        "?"@ + decimal(status.untracked as nat),
        Color::Created,
    ) + piece(status.ahead > 0, "\u{2191}"@ + decimal(status.ahead as nat), Color::Success) + piece(
        status.behind > 0,
        "\u{2193}"@ + decimal(status.behind as nat),
        Color::Info,
    ) + piece(!status.has_upstream, "\u{26a0}"@, Color::Warning)
}

/// What segments read as.
pub open spec fn segment_views(segments: Seq<(String, Color)>) -> Seq<(Seq<char>, Color)> {
    segments.map_values(|segment: (String, Color)| (segment.0@, segment.1))
}

/// Adds the piece for `count`, unless there is nothing to count.
fn push_count(segments: &mut Vec<(String, Color)>, mark: &str, count: usize, color: Color)
    ensures
        segment_views(final(segments)@) == segment_views(old(segments)@) + piece(
            count > 0,
            mark@ + decimal(count as nat),
            color,
        ),
{
    if count > 0 {
        let mut text = mark.to_string();
        append_decimal(&mut text, count);
        segments.push((text, color));
    }
    assert(segment_views(segments@) =~= segment_views(old(segments)@) + piece(
        count > 0,
        mark@ + decimal(count as nat),
        color,
    ));
}

/// The pieces of a worktree's git state, each with the colour that carries its
/// meaning, so that they can be told apart at a glance.
pub fn status_segments(status: &GitStatus) -> (segments: Vec<(String, Color)>)
    ensures
        segment_views(segments@) == pieces(*status),
        segments@.len() == pieces(*status).len(),
        forall|i: int|
            0 <= i < segments@.len() ==> (#[trigger] segments@[i]).0@ == pieces(*status)[i].0
                && segments@[i].1 == pieces(*status)[i].1,
{
    let mut segments: Vec<(String, Color)> = Vec::new();
    push_count(&mut segments, "~", status.changed, Color::Modified);
    push_count(&mut segments, "?", status.untracked, Color::Created);
    push_count(&mut segments, "\u{2191}", status.ahead, Color::Success);
    push_count(&mut segments, "\u{2193}", status.behind, Color::Info);
    if !status.has_upstream {
        segments.push(("\u{26a0}".to_string(), Color::Warning));
    }
    assert(segment_views(segments@) =~= pieces(*status));
    assert forall|i: int| 0 <= i < segments@.len() implies (#[trigger] segments@[i]).0@ == pieces(
        *status,
    )[i].0 && segments@[i].1 == pieces(*status)[i].1 by {
        assert(segment_views(segments@)[i] == (segments@[i].0@, segments@[i].1));
    }
    segments
}

/// A worktree shows nothing exactly when it holds no work, is level with its
/// upstream and has one.
pub proof fn law_only_a_clean_worktree_shows_nothing(status: GitStatus)
    ensures
        pieces(status).len() == 0 <==> !status.dirty() && status.ahead == 0 && status.behind == 0
            && status.has_upstream,
{
}

/// Each kind of change has a colour of its own: no two pieces share one.
pub proof fn law_each_piece_has_its_own_colour(status: GitStatus, i: int, j: int)
    requires
        0 <= i < j < pieces(status).len(),
    ensures
        pieces(status)[i].1 != pieces(status)[j].1,
{
}

/// A branch without an upstream is flagged, and no other is.
pub proof fn law_a_missing_upstream_is_flagged(status: GitStatus)
    ensures
        pieces(status).contains(("\u{26a0}"@, Color::Warning)) <==> !status.has_upstream,
{
    if !status.has_upstream {
        assert(pieces(status).last() == ("\u{26a0}"@, Color::Warning));
    } else {
        assert forall|i: int| 0 <= i < pieces(status).len() implies #[trigger] pieces(status)[i].1
            != Color::Warning by {}
    }
}

/// Each count that is not zero is shown, with its mark and its colour, in the
/// place left by those before it, a missing upstream comes last, and nothing
/// else is shown.
pub proof fn law_every_count_is_shown_in_its_place(status: GitStatus)
    ensures
        ({
            let changed: int = if status.changed != 0 { 1 } else { 0 };
            let untracked: int = changed + if status.untracked != 0 { 1int } else { 0 };
            let ahead: int = untracked + if status.ahead != 0 { 1int } else { 0 };
            let behind: int = ahead + if status.behind != 0 { 1int } else { 0 };
            let shown = pieces(status);
            &&& shown.len() == behind + if status.has_upstream { 0int } else { 1 }
            &&& status.changed != 0 ==> shown[0] == ("~"@ + decimal(status.changed as nat),
                Color::Modified)
            &&& status.untracked != 0 ==> shown[changed] == ("?"@ + decimal(
                status.untracked as nat,
            ), Color::Created)
            &&& status.ahead != 0 ==> shown[untracked] == ("\u{2191}"@ + decimal(
                status.ahead as nat,
            ), Color::Success)
            &&& status.behind != 0 ==> shown[ahead] == ("\u{2193}"@ + decimal(
                status.behind as nat,
            ), Color::Info)
            &&& !status.has_upstream ==> shown[behind] == ("\u{26a0}"@, Color::Warning)
        }),
{
}

/// Each segment is read as its own text and colour.
pub proof fn law_segments_are_read_as_they_stand(segments: Seq<(String, Color)>, at: int)
    requires
        0 <= at < segments.len(),
    ensures
        segment_views(segments).len() == segments.len(),
        segment_views(segments)[at].0 == segments[at].0@,
        segment_views(segments)[at].1 == segments[at].1,
{
}

} // verus!
