//! The content of the Diff pane: line diffs of files and the text of
//! commits.

use vstd::prelude::*;
use crate::model::{DiffLine, DiffLineView};
use crate::text::{
    diff_side_lines, ends_with_newline, joined, lossy_text, owned, split_lines, text_from_bytes, text_lines,
};

verus! {

/// One step of a line diff, as the `diff` crate reports it.
#[derive(Debug)]
pub enum LineChange {
    /// A line only the old text has.
    Removed(String),
    /// A line both texts have: the old text's copy, then the new text's.
    Kept(String, String),
    /// A line only the new text has.
    Added(String),
}

pub enum LineChangeView {
    Removed(Seq<char>),
    Kept(Seq<char>, Seq<char>),
    Added(Seq<char>),
}

impl View for LineChange {
    type V = LineChangeView;

    open spec fn view(&self) -> LineChangeView {
        match self {
            LineChange::Removed(s) => LineChangeView::Removed(s@),
            LineChange::Kept(a, b) => LineChangeView::Kept(a@, b@),
            LineChange::Added(s) => LineChangeView::Added(s@),
        }
    }
}

impl DeepView for LineChange {
    type V = LineChangeView;

    open spec fn deep_view(&self) -> LineChangeView {
        self@
    }
}

/// What `diff::lines` returns for two texts.
pub uninterp spec fn line_changes(left: Seq<char>, right: Seq<char>) -> Seq<LineChangeView>;

/// The lines of the old text that a diff goes through, in order.
pub open spec fn old_side(changes: Seq<LineChangeView>) -> Seq<Seq<char>>
    decreases changes.len(),
{
    if changes.len() == 0 {
        seq![]
    } else {
        let rest = old_side(changes.drop_last());
        match changes.last() {
            LineChangeView::Removed(s) => rest.push(s),
            LineChangeView::Kept(s, _) => rest.push(s),
            LineChangeView::Added(_) => rest,
        }
    }
}

/// The lines of the new text that a diff goes through, in order.
pub open spec fn new_side(changes: Seq<LineChangeView>) -> Seq<Seq<char>>
    decreases changes.len(),
{
    if changes.len() == 0 {
        seq![]
    } else {
        let rest = new_side(changes.drop_last());
        match changes.last() {
            LineChangeView::Removed(_) => rest,
            LineChangeView::Kept(_, s) => rest.push(s),
            LineChangeView::Added(s) => rest.push(s),
        }
    }
}

/// Every kept line is the same line on both sides.
pub open spec fn kept_lines_agree(changes: Seq<LineChangeView>) -> bool {
    forall|i: int|
        0 <= i < changes.len() ==> (#[trigger] changes[i] matches LineChangeView::Kept(a, b)
            ==> a == b)
}

/// How many steps of a diff keep a line.
pub open spec fn kept_count(changes: Seq<LineChangeView>) -> nat
    decreases changes.len(),
{
    if changes.len() == 0 {
        0
    } else {
        kept_count(changes.drop_last()) + match changes.last() {
            LineChangeView::Kept(_, _) => 1nat,
            _ => 0nat,
        }
    }
}

/// The length of a longest common subsequence of two sequences of lines.
pub open spec fn lcs_len(a: Seq<Seq<char>>, b: Seq<Seq<char>>) -> nat
    decreases a.len() + b.len(),
{
    if a.len() == 0 || b.len() == 0 {
        0
    } else if a.last() == b.last() {
        lcs_len(a.drop_last(), b.drop_last()) + 1
    } else {
        let x = lcs_len(a.drop_last(), b);
        let y = lcs_len(a, b.drop_last());
        if x >= y { x } else { y }
    }
}

/// Calls `diff::lines`, the line diff of the `diff` crate, and names its
/// result `line_changes`. The contract claims: the old-text side of the
/// result (removed and kept lines) is the lines of `left` followed by one
/// empty line when `left` ends with `\n`, and the same for the new-text side
/// and `right`; a kept step pairs two equal lines; and the steps keep as
/// many lines as a longest common subsequence of the two texts' lines, plus
/// the final empty line when both texts end with `\n`. Which of several
/// longest common subsequences is kept is left to the name.
#[verifier::external_body]
fn diff_lines(left: &str, right: &str) -> (changes: Vec<LineChange>)
    ensures
        changes.deep_view() == line_changes(left@, right@),
        old_side(changes.deep_view()) == diff_side_lines(left@),
        new_side(changes.deep_view()) == diff_side_lines(right@),
        kept_lines_agree(changes.deep_view()),
        kept_count(changes.deep_view()) == lcs_len(text_lines(left@), text_lines(right@)) + (if ends_with_newline(left@) && ends_with_newline(right@) { 1nat } else { 0nat }),
{
    ::diff::lines(left, right).into_iter().map(|r| match r {
        ::diff::Result::Left(l) => LineChange::Removed(l.to_string()),
        ::diff::Result::Both(l, r) => LineChange::Kept(l.to_string(), r.to_string()),
        ::diff::Result::Right(r) => LineChange::Added(r.to_string()),
    }).collect()
}

/// The Diff pane line for one step of a line diff.
pub open spec fn change_line(c: LineChangeView) -> DiffLineView {
    match c {
        LineChangeView::Removed(s) => DiffLineView::Removed(s),
        LineChangeView::Kept(s, _) => DiffLineView::Context(s),
        LineChangeView::Added(s) => DiffLineView::Added(s),
    }
}

/// Diff of a modified file: two headers, then the line diff of the stored
/// text against the working tree text.
pub open spec fn modified_diff(path: Seq<char>, stored: Seq<char>, current: Seq<char>) -> Seq<
    DiffLineView,
> {
    seq![DiffLineView::Header("--- "@ + path), DiffLineView::Header("+++ working tree"@)]
        + line_changes(stored, current).map_values(|c: LineChangeView| change_line(c))
}

/// Diff of a deleted file: a header, then every stored line as removed.
pub open spec fn deleted_diff(path: Seq<char>, stored: Seq<char>) -> Seq<DiffLineView> {
    seq![DiffLineView::Header("deleted: "@ + path)] + text_lines(stored).map_values(
        |l: Seq<char>| DiffLineView::Removed(l),
    )
}

/// Diff of an untracked file: a header, then every line as added.
pub open spec fn untracked_diff(path: Seq<char>, content: Seq<char>) -> Seq<DiffLineView> {
    seq![DiffLineView::Header("untracked: "@ + path)] + text_lines(content).map_values(
        |l: Seq<char>| DiffLineView::Added(l),
    )
}

/// What the Diff pane shows for a commit: a header, then every line of the
/// commit object as context.
pub open spec fn commit_diff_lines(hash: Seq<char>, text: Seq<char>) -> Seq<DiffLineView> {
    seq![DiffLineView::Header("commit "@ + hash)] + text_lines(text).map_values(
        |l: Seq<char>| DiffLineView::Context(l),
    )
}

/// What the Diff pane shows for a file of a past commit: a header with the
/// file's name, then every line of the stored file as context.
pub open spec fn blob_diff_lines(name: Seq<char>, text: Seq<char>) -> Seq<DiffLineView> {
    seq![DiffLineView::Header(name)] + text_lines(text).map_values(
        |l: Seq<char>| DiffLineView::Context(l),
    )
}

/// The lines of the old text that a diff pane shows: removed lines and
/// context lines, in order.
pub open spec fn shown_old_lines(lines: Seq<DiffLineView>) -> Seq<Seq<char>>
    decreases lines.len(),
{
    if lines.len() == 0 {
        seq![]
    } else {
        let rest = shown_old_lines(lines.drop_last());
        match lines.last() {
            DiffLineView::Removed(s) => rest.push(s),
            DiffLineView::Context(s) => rest.push(s),
            _ => rest,
        }
    }
}

/// The lines of the new text that a diff pane shows: added lines and
/// context lines, in order.
pub open spec fn shown_new_lines(lines: Seq<DiffLineView>) -> Seq<Seq<char>>
    decreases lines.len(),
{
    if lines.len() == 0 {
        seq![]
    } else {
        let rest = shown_new_lines(lines.drop_last());
        match lines.last() {
            DiffLineView::Added(s) => rest.push(s),
            DiffLineView::Context(s) => rest.push(s),
            _ => rest,
        }
    }
}

/// The kinds of a line of the Diff pane.
#[derive(PartialEq, Eq, Structural, Clone, Copy)]
enum LineTag {
    Added,
    Removed,
    Context,
}

spec fn tag_line(tag: LineTag, l: Seq<char>) -> DiffLineView {
    match tag {
        LineTag::Added => DiffLineView::Added(l),
        LineTag::Removed => DiffLineView::Removed(l),
        LineTag::Context => DiffLineView::Context(l),
    }
}

/// Appends `lines`, each as a diff line of kind `tag`, to `out`.
fn push_tagged(lines: Vec<String>, tag: LineTag, out: &mut Vec<DiffLine>)
    ensures
        final(out).deep_view() == old(out).deep_view() + lines.deep_view().map_values(
            |l: Seq<char>| tag_line(tag, l),
        ),
{
    let ghost start = out.deep_view();
    let ghost src = lines.deep_view();
    let mut i: usize = 0;
    let n = lines.len();
    while i < n
        invariant
            n == src.len(),
            i <= n,
            out.deep_view() == start + src.take(i as int).map_values(
                |l: Seq<char>| tag_line(tag, l),
            ),
            lines.deep_view() == src,
        decreases n - i,
    {
        let line = lines[i].clone();
        let d = match tag {
            LineTag::Added => DiffLine::Added(line),
            LineTag::Removed => DiffLine::Removed(line),
            LineTag::Context => DiffLine::Context(line),
        };
        assert(d@ == tag_line(tag, src[i as int]));
        let ghost before = out.deep_view();
        out.push(d);
        assert(out.deep_view() =~= before.push(tag_line(tag, src[i as int])));
        assert(src.take(i + 1).map_values(|l: Seq<char>| tag_line(tag, l)) =~= src.take(
            i as int,
        ).map_values(|l: Seq<char>| tag_line(tag, l)).push(tag_line(tag, src[i as int])));
        i = i + 1;
    }
    assert(src.take(n as int) =~= src);
}

/// The diff lines of a deleted file whose stored blob holds `stored`.
pub fn deleted_file_diff(path: &str, stored: &[u8]) -> (lines: Vec<DiffLine>)
    ensures
        lines.deep_view() == deleted_diff(path@, lossy_text(stored@)),
{
    let text = text_from_bytes(stored);
    let mut out: Vec<DiffLine> = Vec::new();
    out.push(DiffLine::Header(joined("deleted: ", path)));
    push_tagged(split_lines(text.as_str()), LineTag::Removed, &mut out);
    assert(out.deep_view() =~= deleted_diff(path@, lossy_text(stored@)));
    out
}

/// The diff lines of an untracked file whose text is `content`.
pub fn untracked_file_diff(path: &str, content: &str) -> (lines: Vec<DiffLine>)
    ensures
        lines.deep_view() == untracked_diff(path@, content@),
{
    let mut out: Vec<DiffLine> = Vec::new();
    out.push(DiffLine::Header(joined("untracked: ", path)));
    push_tagged(split_lines(content), LineTag::Added, &mut out);
    assert(out.deep_view() =~= untracked_diff(path@, content@));
    out
}

/// The diff lines of a modified file: its stored blob holds `stored`, its
/// working tree text is `current`.
pub fn modified_file_diff(path: &str, stored: &[u8], current: &str) -> (lines: Vec<DiffLine>)
    ensures
        lines.deep_view() == modified_diff(path@, lossy_text(stored@), current@),
        // The diff goes through the whole stored text and the whole working
        // tree text (each with one more empty line when it ends with `\n`).
        shown_old_lines(lines.deep_view()) == diff_side_lines(lossy_text(stored@)),
        shown_new_lines(lines.deep_view()) == diff_side_lines(current@),
        // Every kept line is the same on both sides, and the diff keeps as
        // many lines as a longest common subsequence of the two texts'
        // lines (plus the final empty line when both end with `\n`).
        kept_lines_agree(line_changes(lossy_text(stored@), current@)),
        kept_count(line_changes(lossy_text(stored@), current@)) == lcs_len(
            text_lines(lossy_text(stored@)),
            text_lines(current@),
        ) + (if ends_with_newline(lossy_text(stored@)) && ends_with_newline(current@) {
            1nat
        } else {
            0nat
        }),
{
    let text = text_from_bytes(stored);
    let changes = diff_lines(text.as_str(), current);
    let ghost cs = changes.deep_view();
    let mut out: Vec<DiffLine> = Vec::new();
    out.push(DiffLine::Header(joined("--- ", path)));
    out.push(DiffLine::Header(owned("+++ working tree")));
    let ghost start = out.deep_view();
    let n = changes.len();
    let mut i: usize = 0;
    while i < n
        invariant
            n == cs.len(),
            i <= n,
            changes.deep_view() == cs,
            out.deep_view() == start + cs.take(i as int).map_values(
                |c: LineChangeView| change_line(c),
            ),
        decreases n - i,
    {
        let d = match &changes[i] {
            LineChange::Removed(s) => DiffLine::Removed(s.clone()),
            LineChange::Kept(s, _) => DiffLine::Context(s.clone()),
            LineChange::Added(s) => DiffLine::Added(s.clone()),
        };
        let ghost before = out.deep_view();
        out.push(d);
        assert(out.deep_view() =~= before.push(change_line(cs[i as int])));
        assert(cs.take(i + 1).map_values(|c: LineChangeView| change_line(c)) =~= cs.take(
            i as int,
        ).map_values(|c: LineChangeView| change_line(c)).push(change_line(cs[i as int])));
        i = i + 1;
    }
    assert(cs.take(n as int) =~= cs);
    assert(out.deep_view() =~= modified_diff(path@, lossy_text(stored@), current@));
    proof {
        lemma_mapped_sides(cs);
        lemma_headers_then(start, cs.map_values(|c: LineChangeView| change_line(c)));
    }
    out
}

/// The diff lines of a commit whose object holds `object`.
pub fn commit_diff(hash: &str, object: &[u8]) -> (lines: Vec<DiffLine>)
    ensures
        lines.deep_view() == commit_diff_lines(hash@, lossy_text(object@)),
{
    let text = text_from_bytes(object);
    let mut out: Vec<DiffLine> = Vec::new();
    out.push(DiffLine::Header(joined("commit ", hash)));
    push_tagged(split_lines(text.as_str()), LineTag::Context, &mut out);
    assert(out.deep_view() =~= commit_diff_lines(hash@, lossy_text(object@)));
    out
}

/// The diff lines of a file of a past commit named `name`, whose blob holds
/// `object`.
pub fn blob_diff(name: &str, object: &[u8]) -> (lines: Vec<DiffLine>)
    ensures
        lines.deep_view() == blob_diff_lines(name@, lossy_text(object@)),
{
    let text = text_from_bytes(object);
    let mut out: Vec<DiffLine> = Vec::new();
    out.push(DiffLine::Header(owned(name)));
    push_tagged(split_lines(text.as_str()), LineTag::Context, &mut out);
    assert(out.deep_view() =~= blob_diff_lines(name@, lossy_text(object@)));
    out
}

proof fn lemma_mapped_sides(cs: Seq<LineChangeView>)
    requires
        kept_lines_agree(cs),
    ensures
        shown_old_lines(cs.map_values(|c: LineChangeView| change_line(c))) == old_side(cs),
        shown_new_lines(cs.map_values(|c: LineChangeView| change_line(c))) == new_side(cs),
    decreases cs.len(),
{
    let m = cs.map_values(|c: LineChangeView| change_line(c));
    if cs.len() > 0 {
        let front = cs.drop_last();
        assert(kept_lines_agree(front)) by {
            assert forall|i: int| 0 <= i < front.len() implies (#[trigger] front[i]
                matches LineChangeView::Kept(a, b) ==> a == b) by {
                assert(front[i] == cs[i]);
            }
        }
        lemma_mapped_sides(front);
        assert(m.drop_last() =~= front.map_values(|c: LineChangeView| change_line(c)));
        assert(m.last() == change_line(cs.last()));
        let last = cs.last();
        assert(cs[cs.len() - 1] == last);
    } else {
        assert(m.len() == 0);
    }
}

proof fn lemma_headers_then(h: Seq<DiffLineView>, body: Seq<DiffLineView>)
    requires
        forall|i: int| 0 <= i < h.len() ==> #[trigger] h[i] is Header,
    ensures
        shown_old_lines(h + body) == shown_old_lines(body),
        shown_new_lines(h + body) == shown_new_lines(body),
    decreases h.len() + body.len(),
{
    if body.len() > 0 {
        lemma_headers_then(h, body.drop_last());
        assert((h + body).drop_last() =~= h + body.drop_last());
        assert((h + body).last() == body.last());
    } else {
        assert(h + body =~= h);
        lemma_only_headers(h);
    }
}

proof fn lemma_only_headers(h: Seq<DiffLineView>)
    requires
        forall|i: int| 0 <= i < h.len() ==> #[trigger] h[i] is Header,
    ensures
        shown_old_lines(h) == Seq::<Seq<char>>::empty(),
        shown_new_lines(h) == Seq::<Seq<char>>::empty(),
    decreases h.len(),
{
    if h.len() > 0 {
        assert(h.last() == h[h.len() - 1]);
        let front = h.drop_last();
        assert forall|i: int| 0 <= i < front.len() implies #[trigger] front[i] is Header by {
            assert(front[i] == h[i]);
        }
        lemma_only_headers(front);
    }
}

} // verus!
