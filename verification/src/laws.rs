//! Properties that hold across the operations of the front end.

use vstd::prelude::*;
use vstd::utf8::encode_utf8;
use crate::diff_pane::{blob_diff_lines, line_changes, LineChangeView};
use crate::model::{
    ActionView, CommitInfoView, DiffLineView, EntryKind, FileEntryView, FileSection,
    IndexFileStateView, Key, Mode, Pane,
};
use crate::log::{
    commit_message, commit_parent, commit_tree, has_prefix, lemma_first_empty_line,
    lemma_first_line_with,
};
use crate::panes::{
    DiffRowView, DiffTone, FileRowView, LogRowView, TreeRowView, diff_rows, file_rows,
    file_selection, key_help, kind_sigil, log_rows, log_selection, section_label, short_hash,
    status_line, tree_rows, unstaged_rows, untracked_rows,
};
use crate::state::{
    AppView, DiffContentView, DiffRequestView, WalkStep, is_repository_dir, unstaged_entries,
    walk_step,
};
use crate::text::{decimal, digit_char, first_newline, lossy_text, strip_cr, text_lines};

verus! {

/// Whether an index entry shows up as unstaged: its file is gone, or its
/// text is not the stored text.
pub open spec fn differs_from_index(e: IndexFileStateView) -> bool {
    !e.present || e.current != lossy_text(e.stored)
}

/// The unstaged entry for an index entry that differs.
pub open spec fn unstaged_entry_of(e: IndexFileStateView) -> FileEntryView {
    FileEntryView {
        path: e.path,
        kind: if e.present { EntryKind::Modified } else { EntryKind::Deleted },
    }
}

/// Tab moves the focus from Files to Log to Tree and back to Files: three
/// presses give the focus back to the pane that had it, with nothing else
/// changed but the Diff pane, which waits to be filled again.
pub proof fn law_tab_cycles_three_panes(app: AppView)
    requires
        app.mode == Mode::Normal,
    ensures
        app.key_step(Key::Tab).0.pane == match app.pane {
            Pane::Files => Pane::Log,
            Pane::Log => Pane::Tree,
            Pane::Tree => Pane::Files,
        },
        app.key_step(Key::Tab).0.key_step(Key::Tab).0.key_step(Key::Tab).0 == app.diff_pending(),
{
    assert(app.key_step(Key::Tab).0.key_step(Key::Tab).0.key_step(Key::Tab).0 =~= app.diff_pending());
}

/// Moving the selection, switching panes and refreshing each leave the Diff
/// pane empty and scrolled to the top, to be filled for the new selection.
pub proof fn law_selection_changes_reset_diff(
    app: AppView,
    up: bool,
    index: Seq<IndexFileStateView>,
    untracked: Seq<Seq<char>>,
    log: Seq<CommitInfoView>,
)
    ensures
        app.navigated(up).diff.len() == 0 && app.navigated(up).diff_scroll == 0,
        app.pane_switched().diff.len() == 0 && app.pane_switched().diff_scroll == 0,
        app.refreshed(index, untracked, log).diff.len() == 0 && app.refreshed(
            index,
            untracked,
            log,
        ).diff_scroll == 0,
{
}

/// After navigation or a refresh, the Tree pane holds either nothing or the
/// files of the commit selected in the Log pane; and when no tree has to be
/// read, it holds the files of the selected commit.
pub proof fn law_tree_follows_log(
    app: AppView,
    up: bool,
    index: Seq<IndexFileStateView>,
    untracked: Seq<Seq<char>>,
    log: Seq<CommitInfoView>,
)
    ensures
        ({
            let n = app.navigated(up);
            n.tree_commit is None || n.tree_commit == n.wanted_tree()
        }),
        ({
            let r = app.refreshed(index, untracked, log);
            r.tree_commit is None || r.tree_commit == r.wanted_tree()
        }),
        app.tree_request() is None ==> app.wanted_tree() is None || app.tree_commit
            == app.wanted_tree(),
        app.tree_request() matches Some(h) ==> app.tree_loaded(h, seq![]).tree_request() is None,
{
}

/// Moving the selection up or down keeps every selection inside its list.
pub proof fn law_navigation_stays_in_range(app: AppView, up: bool)
    requires
        app.selection_in_range(),
    ensures
        app.navigated(up).selection_in_range(),
{
}

/// No key press takes a selection out of its list.
pub proof fn law_keys_keep_selection_in_range(app: AppView, key: Key)
    requires
        app.selection_in_range(),
    ensures
        app.key_step(key).0.selection_in_range(),
{
    law_navigation_stays_in_range(app, true);
    law_navigation_stays_in_range(app, false);
}

/// After a refresh the selections of both file lists are inside their
/// lists (or 0 for an empty list).
pub proof fn law_refresh_brings_file_selection_into_range(
    app: AppView,
    index: Seq<IndexFileStateView>,
    untracked: Seq<Seq<char>>,
    log: Seq<CommitInfoView>,
)
    ensures
        ({
            let r = app.refreshed(index, untracked, log);
            &&& r.unstaged_idx < r.unstaged.len() || r.unstaged_idx == 0
            &&& r.untracked_idx < r.untracked.len() || r.untracked_idx == 0
        }),
{
}

/// Scrolling the Diff pane down with `J` and back up with `K` returns to
/// the same place, unless scrolling down hit the end of the range.
pub proof fn law_scroll_down_then_up(app: AppView)
    requires
        app.mode == Mode::Normal,
        app.diff_scroll + 3 <= usize::MAX,
    ensures
        app.key_step(Key::Char('J')).0.key_step(Key::Char('K')).0 == app,
{
    assert(app.key_step(Key::Char('J')).0.key_step(Key::Char('K')).0 =~= app);
}

/// Typing a character into the commit message and erasing it with
/// Backspace gives back the message as it was.
pub proof fn law_type_then_erase(app: AppView, c: char)
    requires
        app.mode == Mode::CommitInput,
    ensures
        app.key_step(Key::Char(c)).0.key_step(Key::Backspace).0 == app,
{
    assert(app.commit_msg.push(c).drop_last() =~= app.commit_msg);
    assert(app.key_step(Key::Char(c)).0.key_step(Key::Backspace).0 =~= app);
}

/// Only `q` in normal mode quits; while a message is typed, `q` is typed
/// like any other character.
pub proof fn law_only_q_quits(app: AppView, key: Key)
    ensures
        app.key_step(key).1 == ActionView::Quit <==> (app.mode == Mode::Normal && key
            == Key::Char('q')),
{
}

/// A commit is asked for only by Enter while a non-empty message is typed,
/// and Esc leaves the typed message as it is.
pub proof fn law_commit_needs_message(app: AppView, key: Key)
    ensures
        app.key_step(key).1 == ActionView::Commit <==> (app.mode == Mode::CommitInput && key
            == Key::Enter && app.commit_msg.len() > 0),
        app.mode == Mode::CommitInput ==> app.key_step(Key::Esc).0.commit_msg == app.commit_msg
            && app.key_step(Key::Esc).0.mode == Mode::Normal,
{
}

/// Staging is asked for only for the selected file, and never for a
/// deleted one.
pub proof fn law_stage_only_selected(app: AppView, key: Key)
    ensures
        app.key_step(key).1 matches ActionView::Stage(e) ==> app.selected_entry() == Some(e)
            && e.kind != EntryKind::Deleted && app.key_step(key).0 == app,
{
}

/// A walk of the working tree reports only files that are neither ignored
/// nor in the index, and enters only directories that are not ignored.
pub proof fn law_walk_reports_only_untracked_files(
    rel: Seq<char>,
    is_dir: bool,
    ignored: bool,
    indexed: Seq<Seq<char>>,
)
    ensures
        walk_step(rel, is_dir, ignored, indexed) == WalkStep::Report ==> !is_dir && !ignored
            && !indexed.contains(rel),
        walk_step(rel, is_dir, ignored, indexed) == WalkStep::Descend ==> is_dir && !ignored,
{
}

/// The unstaged files are exactly the index entries whose file is missing
/// (listed as deleted) or whose text is not the stored text (listed as
/// modified), in index order.
pub proof fn law_unstaged_are_the_differing_entries(index: Seq<IndexFileStateView>)
    ensures
        unstaged_entries(index) == index.filter(|e: IndexFileStateView| differs_from_index(e)).map_values(
            |e: IndexFileStateView| unstaged_entry_of(e),
        ),
    decreases index.len(),
{
    let pred = |e: IndexFileStateView| differs_from_index(e);
    let f = |e: IndexFileStateView| unstaged_entry_of(e);
    reveal(Seq::filter);
    if index.len() == 0 {
        assert(index.filter(pred) =~= Seq::<IndexFileStateView>::empty());
        assert(index.filter(pred).map_values(f) =~= Seq::<FileEntryView>::empty());
    } else {
        let front = index.drop_last();
        law_unstaged_are_the_differing_entries(front);
        let e = index.last();
        assert(index.filter(pred) == if pred(e) {
            front.filter(pred).push(e)
        } else {
            front.filter(pred)
        });
        if pred(e) {
            assert(front.filter(pred).push(e).map_values(f) =~= front.filter(pred).map_values(
                f,
            ).push(f(e)));
        }
    }
}

/// The row that the Files pane highlights is the row of the selected file,
/// and that row is the one marked as selected.
pub proof fn law_highlighted_file_row_is_selected(app: AppView)
    requires
        file_selection(app) is Some,
    ensures
        ({
            let k = file_selection(app)->0;
            &&& k < file_rows(app).len()
            &&& file_rows(app)[k as int] is Entry
            &&& file_rows(app)[k as int]->Entry_selected
            &&& app.selected_entry() is Some
            &&& file_rows(app)[k as int]->Entry_path == app.selected_entry()->0.path
        }),
{
    let k = file_selection(app)->0;
    let u = unstaged_rows(app);
    let t = untracked_rows(app);
    match app.file_section {
        FileSection::Unstaged => {
            assert(file_rows(app) == u + t);
            assert((u + t)[k as int] == u[k as int]);
        },
        FileSection::Untracked => {
            assert(file_rows(app) == u + t);
            assert(u.len() == app.unstaged.len() + (if app.unstaged.len() > 0 { 1nat } else { 0nat }));
            assert((u + t)[k as int] == t[k - u.len()]);
        },
    }
}


/// In the Log pane, Up (or `k`) selects the commit one row above, the next
/// newer one, and stays on the first row; Down (or `j`) selects the commit
/// one row below and stays on the last row. Down then Up comes back to the
/// same commit. The focus, the Files pane and the typed message stay as
/// they are.
pub proof fn law_log_moves_one_row(app: AppView)
    requires
        app.mode == Mode::Normal,
        app.pane == Pane::Log,
    ensures
        app.key_step(Key::Char('k')) == app.key_step(Key::Up),
        app.key_step(Key::Char('j')) == app.key_step(Key::Down),
        app.key_step(Key::Up).1 == ActionView::ReloadDiff,
        app.key_step(Key::Down).1 == ActionView::ReloadDiff,
        app.log_idx > 0 ==> app.key_step(Key::Up).0.log_idx == app.log_idx - 1,
        app.log_idx == 0 ==> app.key_step(Key::Up).0.log_idx == 0,
        0 < app.log_idx < app.log.len() ==> app.key_step(Key::Up).0.selected_commit() == Some(
            app.log[app.log_idx - 1],
        ),
        app.log_idx + 1 < app.log.len() ==> app.key_step(Key::Down).0.log_idx == app.log_idx + 1,
        app.log_idx + 1 >= app.log.len() ==> app.key_step(Key::Down).0.log_idx == app.log_idx,
        app.log_idx + 1 < app.log.len() ==> app.key_step(Key::Down).0.key_step(Key::Up).0.log_idx
            == app.log_idx,
        ({
            let up = app.key_step(Key::Up).0;
            let down = app.key_step(Key::Down).0;
            &&& up.pane == app.pane && down.pane == app.pane
            &&& up.log == app.log && down.log == app.log
            &&& up.file_section == app.file_section && down.file_section == app.file_section
            &&& up.unstaged_idx == app.unstaged_idx && down.unstaged_idx == app.unstaged_idx
            &&& up.untracked_idx == app.untracked_idx && down.untracked_idx == app.untracked_idx
            &&& up.mode == app.mode && down.mode == app.mode
            &&& up.commit_msg == app.commit_msg && down.commit_msg == app.commit_msg
        }),
{
}

/// In the Tree pane, while it shows the files of the selected commit, Up
/// (or `k`) selects the file one row above and stays on the first row; Down
/// (or `j`) selects the file one row below and stays on the last row. The
/// pane keeps its files.
pub proof fn law_tree_moves_one_row(app: AppView)
    requires
        app.mode == Mode::Normal,
        app.pane == Pane::Tree,
        app.tree_commit == app.wanted_tree(),
    ensures
        app.key_step(Key::Char('k')) == app.key_step(Key::Up),
        app.key_step(Key::Char('j')) == app.key_step(Key::Down),
        app.tree_idx > 0 ==> app.key_step(Key::Up).0.tree_idx == app.tree_idx - 1,
        app.tree_idx == 0 ==> app.key_step(Key::Up).0.tree_idx == 0,
        0 < app.tree_idx < app.tree.len() ==> app.key_step(Key::Up).0.selected_tree_item() == Some(
            app.tree[app.tree_idx - 1],
        ),
        app.tree_idx + 1 < app.tree.len() ==> app.key_step(Key::Down).0.tree_idx == app.tree_idx
            + 1,
        app.tree_idx + 1 >= app.tree.len() ==> app.key_step(Key::Down).0.tree_idx == app.tree_idx,
        ({
            let up = app.key_step(Key::Up).0;
            let down = app.key_step(Key::Down).0;
            &&& up.tree == app.tree && down.tree == app.tree
            &&& up.tree_commit == app.tree_commit && down.tree_commit == app.tree_commit
            &&& up.log_idx == app.log_idx && down.log_idx == app.log_idx
            &&& up.pane == app.pane && down.pane == app.pane
        }),
{
}

/// In the Files pane, Up and Down move the selection one file at a time
/// through the unstaged files and then the untracked files, as if they were
/// one list: Down on the last unstaged file goes to the first untracked
/// file, Up on the first untracked file goes back to the last unstaged
/// file. At the very top and the very bottom the selection stays.
pub proof fn law_files_move_one_row(app: AppView)
    requires
        app.mode == Mode::Normal,
        app.pane == Pane::Files,
        app.selection_in_range(),
    ensures
        ({
            let up = app.key_step(Key::Up).0;
            let down = app.key_step(Key::Down).0;
            let n = app.unstaged.len();
            let m = app.untracked.len();
            &&& up.pane == Pane::Files && down.pane == Pane::Files
            &&& up.log_idx == app.log_idx && down.log_idx == app.log_idx
            &&& app.file_section == FileSection::Unstaged ==> {
                &&& app.unstaged_idx > 0 ==> up.file_section == FileSection::Unstaged
                    && up.unstaged_idx == app.unstaged_idx - 1
                &&& app.unstaged_idx == 0 ==> up.file_section == FileSection::Unstaged
                    && up.unstaged_idx == 0
                &&& app.unstaged_idx + 1 < n ==> down.file_section == FileSection::Unstaged
                    && down.unstaged_idx == app.unstaged_idx + 1
                &&& app.unstaged_idx + 1 >= n && m > 0 ==> down.file_section
                    == FileSection::Untracked && down.untracked_idx == 0
                &&& app.unstaged_idx + 1 >= n && m == 0 ==> down.file_section
                    == FileSection::Unstaged && down.unstaged_idx == app.unstaged_idx
            }
            &&& app.file_section == FileSection::Untracked ==> {
                &&& app.untracked_idx > 0 ==> up.file_section == FileSection::Untracked
                    && up.untracked_idx == app.untracked_idx - 1
                &&& app.untracked_idx == 0 && n > 0 ==> up.file_section == FileSection::Unstaged
                    && up.unstaged_idx == n - 1
                &&& app.untracked_idx == 0 && n == 0 ==> up.file_section
                    == FileSection::Untracked && up.untracked_idx == 0
                &&& app.untracked_idx + 1 < m ==> down.file_section == FileSection::Untracked
                    && down.untracked_idx == app.untracked_idx + 1
                &&& app.untracked_idx + 1 >= m ==> down.file_section == FileSection::Untracked
                    && down.untracked_idx == app.untracked_idx
            }
        }),
{
}


/// What a selection asks to be read for the Diff pane: for a deleted file
/// its stored blob, for an untracked file its working tree text, for a
/// modified file both; for a commit its object, for a file of the Tree pane
/// its blob; and nothing when nothing is selected.
pub proof fn law_diff_request_follows_selection(app: AppView)
    ensures
        app.pane == Pane::Files ==> match app.selected_entry() {
            None => app.diff_request() == DiffRequestView::Nothing,
            Some(e) => match e.kind {
                EntryKind::Deleted => app.diff_request() == DiffRequestView::Stored(e.path),
                EntryKind::Untracked => app.diff_request() == DiffRequestView::Current(e.path),
                EntryKind::Modified => app.diff_request() == DiffRequestView::StoredAndCurrent(
                    e.path,
                ),
            },
        },
        app.pane == Pane::Log ==> (app.log_idx < app.log.len() ==> app.diff_request()
            == DiffRequestView::Object(app.log[app.log_idx as int].hash)) && (app.log_idx
            >= app.log.len() ==> app.diff_request() == DiffRequestView::Nothing),
        app.pane == Pane::Tree ==> (app.tree_idx < app.tree.len() ==> app.diff_request()
            == DiffRequestView::Blob(app.tree[app.tree_idx as int].hash)) && (app.tree_idx
            >= app.tree.len() ==> app.diff_request() == DiffRequestView::Nothing),
{
}

/// Filling the Diff pane changes nothing but the Diff pane, and scrolls it
/// to the top; with nothing selected the pane stays empty.
pub proof fn law_diff_fill_touches_only_the_diff(app: AppView, content: DiffContentView)
    ensures
        app.diff_updated(content) == (AppView {
            diff: app.diff_updated(content).diff,
            diff_scroll: 0,
            ..app
        }),
        app.diff_request() == DiffRequestView::Nothing ==> app.diff_updated(content).diff.len()
            == 0,
{
    let filled = AppView { diff: app.diff_updated(content).diff, diff_scroll: 0, ..app };
    assert(app.diff_updated(content) =~= filled);
}

/// For a deleted file the Diff pane shows the header `deleted: ` and the
/// path, then each line of the stored blob's text as a removed line, one
/// row per line, empty lines included, in order.
pub proof fn law_deleted_file_shows_stored_lines_removed(app: AppView, content: DiffContentView)
    requires
        app.pane == Pane::Files,
        app.selected_entry() is Some,
        app.selected_entry()->0.kind == EntryKind::Deleted,
    ensures
        ({
            let d = app.diff_updated(content).diff;
            let ls = text_lines(lossy_text(content.stored));
            &&& d.len() == ls.len() + 1
            &&& d[0] == DiffLineView::Header("deleted: "@ + app.selected_entry()->0.path)
            &&& forall|i: int| 0 <= i < ls.len() ==> d[i + 1] == DiffLineView::Removed(#[trigger] ls[i])
        }),
{
    let d = app.diff_updated(content).diff;
    let ls = text_lines(lossy_text(content.stored));
    assert forall|i: int| 0 <= i < ls.len() implies d[i + 1] == DiffLineView::Removed(#[trigger] ls[i]) by {}
}

/// For an untracked file the Diff pane shows the header `untracked: ` and
/// the path, then each line of its working tree text as an added line, one
/// row per line, empty lines included, in order.
pub proof fn law_untracked_file_shows_lines_added(app: AppView, content: DiffContentView)
    requires
        app.pane == Pane::Files,
        app.selected_entry() is Some,
        app.selected_entry()->0.kind == EntryKind::Untracked,
    ensures
        ({
            let d = app.diff_updated(content).diff;
            let ls = text_lines(content.current);
            &&& d.len() == ls.len() + 1
            &&& d[0] == DiffLineView::Header("untracked: "@ + app.selected_entry()->0.path)
            &&& forall|i: int| 0 <= i < ls.len() ==> d[i + 1] == DiffLineView::Added(#[trigger] ls[i])
        }),
{
    let d = app.diff_updated(content).diff;
    let ls = text_lines(content.current);
    assert forall|i: int| 0 <= i < ls.len() implies d[i + 1] == DiffLineView::Added(#[trigger] ls[i]) by {}
}

/// For a modified file the Diff pane shows the headers `--- ` with the path
/// and `+++ working tree`, then one row for each step of the line diff of
/// the stored text against the working tree text: a removed line, a line
/// both have as context, or an added line.
pub proof fn law_modified_file_shows_line_diff(app: AppView, content: DiffContentView)
    requires
        app.pane == Pane::Files,
        app.selected_entry() is Some,
        app.selected_entry()->0.kind == EntryKind::Modified,
    ensures
        ({
            let d = app.diff_updated(content).diff;
            let cs = line_changes(lossy_text(content.stored), content.current);
            &&& d.len() == cs.len() + 2
            &&& d[0] == DiffLineView::Header("--- "@ + app.selected_entry()->0.path)
            &&& d[1] == DiffLineView::Header("+++ working tree"@)
            &&& forall|i: int| 0 <= i < cs.len() ==> match #[trigger] cs[i] {
                LineChangeView::Removed(l) => d[i + 2] == DiffLineView::Removed(l),
                LineChangeView::Kept(l, _) => d[i + 2] == DiffLineView::Context(l),
                LineChangeView::Added(l) => d[i + 2] == DiffLineView::Added(l),
            }
        }),
{
    let d = app.diff_updated(content).diff;
    let cs = line_changes(lossy_text(content.stored), content.current);
    assert forall|i: int| 0 <= i < cs.len() implies match #[trigger] cs[i] {
        LineChangeView::Removed(l) => d[i + 2] == DiffLineView::Removed(l),
        LineChangeView::Kept(l, _) => d[i + 2] == DiffLineView::Context(l),
        LineChangeView::Added(l) => d[i + 2] == DiffLineView::Added(l),
    } by {}
}

/// For the selected commit, once its object was read, the Diff pane shows
/// the header `commit ` and the hash, then each line of the object's text
/// as context, one row per line, empty lines included; when it could not be
/// read the pane stays empty.
pub proof fn law_commit_shows_object_lines(app: AppView, content: DiffContentView)
    requires
        app.pane == Pane::Log,
        app.log_idx < app.log.len(),
    ensures
        content.object is None ==> app.diff_updated(content).diff.len() == 0,
        content.object matches Some(bytes) ==> ({
            let d = app.diff_updated(content).diff;
            let ls = text_lines(lossy_text(bytes));
            &&& d.len() == ls.len() + 1
            &&& d[0] == DiffLineView::Header("commit "@ + app.log[app.log_idx as int].hash)
            &&& forall|i: int| 0 <= i < ls.len() ==> d[i + 1] == DiffLineView::Context(#[trigger] ls[i])
        }),
{
    if content.object is Some {
        let d = app.diff_updated(content).diff;
        let ls = text_lines(lossy_text(content.object->0));
        assert forall|i: int| 0 <= i < ls.len() implies d[i + 1] == DiffLineView::Context(#[trigger] ls[i]) by {}
    }
}

/// A file of a past commit is shown whole: a header with the file's name,
/// then each line of its text as context, one row per line, empty lines
/// included, in order.
pub proof fn law_blob_view_shows_every_line(name: Seq<char>, text: Seq<char>)
    ensures
        ({
            let d = blob_diff_lines(name, text);
            let ls = text_lines(text);
            &&& d.len() == ls.len() + 1
            &&& d[0] == DiffLineView::Header(name)
            &&& forall|i: int| 0 <= i < ls.len() ==> d[i + 1] == DiffLineView::Context(#[trigger] ls[i])
        }),
{
    let d = blob_diff_lines(name, text);
    let ls = text_lines(text);
    assert forall|i: int| 0 <= i < ls.len() implies d[i + 1] == DiffLineView::Context(#[trigger] ls[i]) by {}
}

/// For the selected file of the Tree pane, once its blob was read, the Diff
/// pane shows the file's name, then each line of the blob's text as
/// context, one row per line, empty lines included; when it could not be
/// read the pane stays empty.
pub proof fn law_tree_file_shows_blob_lines(app: AppView, content: DiffContentView)
    requires
        app.pane == Pane::Tree,
        app.tree_idx < app.tree.len(),
    ensures
        content.object is None ==> app.diff_updated(content).diff.len() == 0,
        content.object matches Some(bytes) ==> ({
            let d = app.diff_updated(content).diff;
            let ls = text_lines(lossy_text(bytes));
            &&& d.len() == ls.len() + 1
            &&& d[0] == DiffLineView::Header(app.tree[app.tree_idx as int].name)
            &&& forall|i: int| 0 <= i < ls.len() ==> d[i + 1] == DiffLineView::Context(#[trigger] ls[i])
        }),
{
    if content.object is Some {
        law_blob_view_shows_every_line(app.tree[app.tree_idx as int].name, lossy_text(content.object->0));
    }
}


/// Freshly read files keep each selection that is still inside its new
/// list; a selection past the end of its new list moves to the last entry,
/// or to 0 when the list is empty. The unstaged list is the index entries
/// that differ, the untracked list the reported paths in order, each as an
/// untracked file.
pub proof fn law_loading_files_keeps_selection(
    app: AppView,
    index: Seq<IndexFileStateView>,
    untracked: Seq<Seq<char>>,
)
    ensures
        ({
            let r = app.files_loaded(index, untracked);
            let n = unstaged_entries(index).len();
            let m = untracked.len();
            &&& r.unstaged == unstaged_entries(index)
            &&& r.untracked.len() == m
            &&& forall|i: int| 0 <= i < m ==> r.untracked[i] == (FileEntryView {
                path: #[trigger] untracked[i],
                kind: EntryKind::Untracked,
            })
            &&& app.unstaged_idx < n ==> r.unstaged_idx == app.unstaged_idx
            &&& app.unstaged_idx >= n && n > 0 ==> r.unstaged_idx == n - 1
            &&& n == 0 ==> r.unstaged_idx == 0
            &&& app.untracked_idx < m ==> r.untracked_idx == app.untracked_idx
            &&& app.untracked_idx >= m && m > 0 ==> r.untracked_idx == m - 1
            &&& m == 0 ==> r.untracked_idx == 0
            &&& r.pane == app.pane && r.file_section == app.file_section
            &&& r.log == app.log && r.log_idx == app.log_idx
            &&& r.diff == app.diff && r.diff_scroll == app.diff_scroll
            &&& r.mode == app.mode && r.commit_msg == app.commit_msg && r.status == app.status
        }),
{
    let r = app.files_loaded(index, untracked);
    assert forall|i: int| 0 <= i < untracked.len() implies r.untracked[i] == (FileEntryView {
        path: #[trigger] untracked[i],
        kind: EntryKind::Untracked,
    }) by {}
}

/// A refresh keeps each file selection that is still inside its new list,
/// as loading files does, takes the freshly read history as it is and
/// keeps the Log selection, the focus, the mode and the typed message.
pub proof fn law_refresh_keeps_selection(
    app: AppView,
    index: Seq<IndexFileStateView>,
    untracked: Seq<Seq<char>>,
    log: Seq<CommitInfoView>,
)
    ensures
        ({
            let r = app.refreshed(index, untracked, log);
            let f = app.files_loaded(index, untracked);
            &&& r.unstaged == f.unstaged && r.untracked == f.untracked
            &&& r.unstaged_idx == f.unstaged_idx && r.untracked_idx == f.untracked_idx
            &&& app.unstaged_idx < unstaged_entries(index).len() ==> r.unstaged_idx
                == app.unstaged_idx
            &&& app.untracked_idx < untracked.len() ==> r.untracked_idx == app.untracked_idx
            &&& r.log == log && r.log_idx == app.log_idx
            &&& r.pane == app.pane && r.file_section == app.file_section
            &&& r.mode == app.mode && r.commit_msg == app.commit_msg && r.status == app.status
        }),
{
    law_loading_files_keeps_selection(app, index, untracked);
}

/// A walk of the working tree leaves out by name exactly the entries named
/// `.isi` or `.git`; every other name, those starting with a dot included,
/// is walked. An entry without a name is walked too.
pub proof fn law_only_repository_dirs_skipped_by_name(name: Seq<char>)
    ensures
        is_repository_dir(Some(name)) <==> (name == ".isi"@ || name == ".git"@),
        !is_repository_dir(None),
{
}

/// The lines of a text: nothing for the empty text; a text without a line
/// feed is one line; and a line feed ends the line before it (without a
/// `\r` right before the line feed), the rest of the text giving the lines
/// that follow. So an empty line between two line feeds is a line of its
/// own.
pub proof fn law_lines_cut_at_line_feeds(a: Seq<char>, b: Seq<char>)
    requires
        !a.contains('\n'),
    ensures
        text_lines(Seq::<char>::empty()) == Seq::<Seq<char>>::empty(),
        a.len() > 0 ==> text_lines(a) == seq![a],
        text_lines(a + seq!['\n'] + b) == seq![strip_cr(a)] + text_lines(b),
{
    lemma_first_line_feed(a, b);
    let s = a + seq!['\n'] + b;
    assert(s.take(a.len() as int) =~= a);
    assert(s.skip((a.len() + 1) as int) =~= b);
    if a.len() > 0 {
        lemma_first_line_feed_none(a);
    }
}

proof fn lemma_first_line_feed(a: Seq<char>, b: Seq<char>)
    requires
        !a.contains('\n'),
    ensures
        first_newline(a + seq!['\n'] + b) == a.len(),
    decreases a.len(),
{
    let s = a + seq!['\n'] + b;
    if a.len() == 0 {
        assert(s[0] == '\n');
    } else {
        assert(a[0] != '\n') by {
            if a[0] == '\n' {
                assert(a.contains('\n'));
            }
        }
        let t = a.drop_first();
        assert(!t.contains('\n')) by {
            if t.contains('\n') {
                let j = choose|j: int| 0 <= j < t.len() && t[j] == '\n';
                assert(a[j + 1] == '\n');
            }
        }
        assert(s.drop_first() =~= t + seq!['\n'] + b);
        lemma_first_line_feed(t, b);
    }
}

proof fn lemma_first_line_feed_none(a: Seq<char>)
    requires
        !a.contains('\n'),
    ensures
        first_newline(a) == a.len(),
    decreases a.len(),
{
    if a.len() > 0 {
        assert(a[0] != '\n') by {
            if a[0] == '\n' {
                assert(a.contains('\n'));
            }
        }
        let t = a.drop_first();
        assert(!t.contains('\n')) by {
            if t.contains('\n') {
                let j = choose|j: int| 0 <= j < t.len() && t[j] == '\n';
                assert(a[j + 1] == '\n');
            }
        }
        lemma_first_line_feed_none(t);
    }
}

/// `J` scrolls the Diff pane three rows down (stopping at the largest
/// offset) and `K` three rows up (stopping at the top); nothing else
/// changes.
pub proof fn law_scroll_moves_three_rows(app: AppView)
    requires
        app.mode == Mode::Normal,
    ensures
        app.key_step(Key::Char('J')).0 == (AppView {
            diff_scroll: if app.diff_scroll + 3 <= usize::MAX {
                app.diff_scroll + 3
            } else {
                usize::MAX as nat
            },
            ..app
        }),
        app.key_step(Key::Char('K')).0 == (AppView {
            diff_scroll: if app.diff_scroll >= 3 { (app.diff_scroll - 3) as nat } else { 0 },
            ..app
        }),
        app.key_step(Key::Char('J')).1 == ActionView::Continue,
        app.key_step(Key::Char('K')).1 == ActionView::Continue,
{
}

/// While a message is typed, a character is added at its end and Backspace
/// takes its last character away; `c` in normal mode starts a new, empty
/// message and clears the status line.
pub proof fn law_typing_edits_the_message_end(app: AppView, c: char)
    ensures
        app.mode == Mode::CommitInput ==> app.key_step(Key::Char(c)).0 == (AppView {
            commit_msg: app.commit_msg.push(c),
            ..app
        }),
        app.mode == Mode::CommitInput && app.commit_msg.len() > 0 ==> app.key_step(
            Key::Backspace,
        ).0 == (AppView { commit_msg: app.commit_msg.take(app.commit_msg.len() - 1), ..app }),
        app.mode == Mode::CommitInput && app.commit_msg.len() == 0 ==> app.key_step(
            Key::Backspace,
        ).0 == app,
        app.mode == Mode::Normal ==> app.key_step(Key::Char('c')).0 == (AppView {
            mode: Mode::CommitInput,
            commit_msg: Seq::<char>::empty(),
            status: None,
            ..app
        }),
{
    if app.mode == Mode::CommitInput && app.commit_msg.len() > 0 {
        assert(app.commit_msg.drop_last() =~= app.commit_msg.take(app.commit_msg.len() - 1));
    }
}


/// The message of a commit object is the line right after its first empty
/// line (the end of the headers), and empty when no line follows an empty
/// line.
pub proof fn law_commit_message_follows_first_empty_line(text: Seq<char>, k: int)
    requires
        0 <= k <= text_lines(text).len(),
        forall|j: int| 0 <= j < k ==> (#[trigger] text_lines(text)[j]).len() > 0,
        k == text_lines(text).len() || text_lines(text)[k].len() == 0,
    ensures
        k + 1 < text_lines(text).len() ==> commit_message(text) == text_lines(text)[k + 1],
        k + 1 >= text_lines(text).len() ==> commit_message(text) == Seq::<char>::empty(),
{
    lemma_first_empty_line(text_lines(text), k);
}

/// The parent of a commit object is what follows `parent ` on the first
/// line that begins with it, and the tree what follows `tree ` on the first
/// line that begins with that; without such a line there is none.
pub proof fn law_headers_come_from_first_matching_line(text: Seq<char>, p: int, t: int)
    requires
        0 <= p <= text_lines(text).len(),
        forall|j: int| 0 <= j < p ==> !has_prefix(#[trigger] text_lines(text)[j], "parent "@),
        p == text_lines(text).len() || has_prefix(text_lines(text)[p], "parent "@),
        0 <= t <= text_lines(text).len(),
        forall|j: int| 0 <= j < t ==> !has_prefix(#[trigger] text_lines(text)[j], "tree "@),
        t == text_lines(text).len() || has_prefix(text_lines(text)[t], "tree "@),
    ensures
        p < text_lines(text).len() ==> commit_parent(text) == Some(
            text_lines(text)[p].skip(("parent "@).len() as int),
        ),
        p == text_lines(text).len() ==> commit_parent(text) is None,
        t < text_lines(text).len() ==> commit_tree(text) == Some(
            text_lines(text)[t].skip(("tree "@).len() as int),
        ),
        t == text_lines(text).len() ==> commit_tree(text) is None,
{
    lemma_first_line_with(text_lines(text), "parent "@, p);
    lemma_first_line_with(text_lines(text), "tree "@, t);
}

/// The Log pane has one row per commit, newest first as in the log: its
/// short hash framed by spaces and its message; exactly the selected row is
/// marked, and only while the Log pane has the focus.
pub proof fn law_log_rows_one_per_commit(app: AppView)
    requires
        app.log.len() > 0,
    ensures
        log_rows(app).len() == app.log.len(),
        forall|i: int| 0 <= i < app.log.len() ==> (#[trigger] log_rows(app)[i]) == (LogRowView::Commit {
            hash_label: " "@ + short_hash(app.log[i].hash) + " "@,
            message: app.log[i].message,
            selected: app.pane == Pane::Log && i == app.log_idx,
        }),
        app.pane == Pane::Log && app.log_idx < app.log.len() ==> log_selection(app) == Some(
            app.log_idx,
        ),
        app.pane != Pane::Log ==> log_selection(app) is None,
{
}

/// A hash of at most 7 bytes is shown whole.
pub proof fn law_short_hash_keeps_short_hashes(hash: Seq<char>)
    requires
        encode_utf8(hash).len() <= 7,
    ensures
        short_hash(hash) == hash,
{
}

/// The Tree pane has one row per file of the shown commit: `blob` and the
/// name for a regular file, the mode and the name otherwise; exactly the
/// selected row is marked, and only while the Tree pane has the focus.
pub proof fn law_tree_rows_one_per_file(app: AppView)
    requires
        app.tree.len() > 0,
    ensures
        tree_rows(app).len() == app.tree.len(),
        forall|i: int| 0 <= i < app.tree.len() ==> (#[trigger] tree_rows(app)[i]) == (TreeRowView::File {
            label: (if app.tree[i].mode == "100644"@ { "blob"@ } else { app.tree[i].mode }) + " "@
                + app.tree[i].name,
            selected: app.pane == Pane::Tree && i == app.tree_idx,
        }),
{
}

/// The Diff pane shows its lines from the scroll offset on, one row per
/// line: a header as it is, an added line after `+ `, a removed line after
/// `- `, a context line after two spaces. Scrolled past the end it shows
/// nothing.
pub proof fn law_diff_rows_from_scroll(app: AppView)
    ensures
        app.diff_scroll >= app.diff.len() ==> diff_rows(app).len() == 0,
        app.diff_scroll < app.diff.len() ==> diff_rows(app).len() == app.diff.len()
            - app.diff_scroll,
        forall|i: int|
            0 <= i && app.diff_scroll + i < app.diff.len() ==> match #[trigger] app.diff[app.diff_scroll + i] {
                DiffLineView::Header(s) => diff_rows(app)[i] == (DiffRowView { tone: DiffTone::Header, text: s }),
                DiffLineView::Added(s) => diff_rows(app)[i] == (DiffRowView { tone: DiffTone::Added, text: "+ "@ + s }),
                DiffLineView::Removed(s) => diff_rows(app)[i] == (DiffRowView { tone: DiffTone::Removed, text: "- "@ + s }),
                DiffLineView::Context(s) => diff_rows(app)[i] == (DiffRowView { tone: DiffTone::Context, text: "  "@ + s }),
            },
{
    assert forall|i: int|
        0 <= i && app.diff_scroll + i < app.diff.len() implies match #[trigger] app.diff[app.diff_scroll + i] {
            DiffLineView::Header(s) => diff_rows(app)[i] == (DiffRowView { tone: DiffTone::Header, text: s }),
            DiffLineView::Added(s) => diff_rows(app)[i] == (DiffRowView { tone: DiffTone::Added, text: "+ "@ + s }),
            DiffLineView::Removed(s) => diff_rows(app)[i] == (DiffRowView { tone: DiffTone::Removed, text: "- "@ + s }),
            DiffLineView::Context(s) => diff_rows(app)[i] == (DiffRowView { tone: DiffTone::Context, text: "  "@ + s }),
        } by {
        assert(app.diff.skip(app.diff_scroll as int)[i] == app.diff[app.diff_scroll + i]);
    }
}

/// The Files pane lists a titled section of unstaged files, then a titled
/// section of untracked files, leaving out an empty section; each unstaged
/// file shows the marker of its kind (`M` or `D`), each untracked file `?`.
/// With no file at all it shows one placeholder row.
pub proof fn law_file_rows_list_both_sections(app: AppView)
    ensures
        app.unstaged.len() == 0 && app.untracked.len() == 0 ==> file_rows(app).len() == 1,
        ({
            let n = app.unstaged.len();
            let m = app.untracked.len();
            let h: nat = if n > 0 { 1 } else { 0 };
            n + m > 0 ==> {
                &&& file_rows(app).len() == n + h + m + (if m > 0 { 1nat } else { 0nat })
                &&& n > 0 ==> file_rows(app)[0] == (FileRowView::Header {
                    label: section_label(FileSection::Unstaged, n),
                    section: FileSection::Unstaged,
                })
                &&& m > 0 ==> file_rows(app)[(n + h) as int] == (FileRowView::Header {
                    label: section_label(FileSection::Untracked, m),
                    section: FileSection::Untracked,
                })
                &&& forall|i: int| 0 <= i < n ==> (#[trigger] file_rows(app)[i + 1]) == (FileRowView::Entry {
                    marker: "  "@ + kind_sigil(app.unstaged[i].kind) + " "@,
                    tone: app.unstaged[i].kind,
                    path: app.unstaged[i].path,
                    selected: app.pane == Pane::Files && app.file_section == FileSection::Unstaged
                        && i == app.unstaged_idx,
                })
                &&& forall|i: int| 0 <= i < m ==> (#[trigger] file_rows(app)[n + h + 1 + i]) == (FileRowView::Entry {
                    marker: "  ? "@,
                    tone: EntryKind::Untracked,
                    path: app.untracked[i].path,
                    selected: app.pane == Pane::Files && app.file_section == FileSection::Untracked
                        && i == app.untracked_idx,
                })
            }
        }),
{
    let n = app.unstaged.len();
    let m = app.untracked.len();
    let u = unstaged_rows(app);
    let t = untracked_rows(app);
    if n + m > 0 {
        assert(file_rows(app) == u + t);
        let h: nat = if n > 0 { 1 } else { 0 };
        assert(u.len() == n + h);
        assert forall|i: int| 0 <= i < n implies (#[trigger] file_rows(app)[i + 1]) == (FileRowView::Entry {
                marker: "  "@ + kind_sigil(app.unstaged[i].kind) + " "@,
                tone: app.unstaged[i].kind,
                path: app.unstaged[i].path,
                selected: app.pane == Pane::Files && app.file_section == FileSection::Unstaged
                    && i == app.unstaged_idx,
            }) by {
            assert((u + t)[i + 1] == u[i + 1]);
        }
        assert forall|i: int| 0 <= i < m implies (#[trigger] file_rows(app)[n + h + 1 + i]) == (FileRowView::Entry {
                marker: "  ? "@,
                tone: EntryKind::Untracked,
                path: app.untracked[i].path,
                selected: app.pane == Pane::Files && app.file_section == FileSection::Untracked
                    && i == app.untracked_idx,
            }) by {
            assert((u + t)[n + h + 1 + i] == t[1 + i]);
            reveal_strlit("  ? ");
            reveal_strlit("  ");
            reveal_strlit("?");
            reveal_strlit(" ");
            assert("  ? "@ =~= "  "@ + "?"@ + " "@);
        }
        if m > 0 {
            assert((u + t)[(n + h) as int] == t[0]);
        }
    }
}

/// The status bar shows the key help, followed by the last report when
/// there is one.
pub proof fn law_status_line_ends_with_report(app: AppView)
    ensures
        app.status matches Some(s) ==> status_line(app) == key_help() + "  │  "@ + s,
        app.status is None ==> status_line(app) == key_help(),
{
}


/// The number that a string of decimal digits stands for.
pub open spec fn digits_value(s: Seq<char>) -> int
    decreases s.len(),
{
    if s.len() == 0 {
        0
    } else {
        digits_value(s.drop_last()) * 10 + (s.last() as int - '0' as int)
    }
}

/// The decimal notation of a number is made of the digits `0` to `9`,
/// starts with `0` only for zero itself, and reads back as the number.
pub proof fn law_decimal_reads_back(n: nat)
    ensures
        digits_value(decimal(n)) == n,
        decimal(n).len() > 0,
        forall|i: int| 0 <= i < decimal(n).len() ==> '0' <= #[trigger] decimal(n)[i] <= '9',
        decimal(n)[0] == '0' ==> n == 0,
    decreases n,
{
    lemma_digit_value(n % 10);
    if n < 10 {
        lemma_digit_value(n);
        assert(decimal(n).drop_last() =~= Seq::<char>::empty());
        assert(decimal(n).last() == digit_char(n));
        assert(digits_value(decimal(n)) == digits_value(decimal(n).drop_last()) * 10 + (digit_char(n) as int - '0' as int));
    } else {
        law_decimal_reads_back(n / 10);
        let d = decimal(n);
        assert(d.drop_last() == decimal(n / 10));
        assert(n == (n / 10) * 10 + n % 10) by (nonlinear_arith);
        assert(d.last() == digit_char(n % 10));
        assert(digits_value(d) == digits_value(decimal(n / 10)) * 10 + (digit_char(n % 10) as int - '0' as int));
        assert(d[0] == decimal(n / 10)[0]);
        assert forall|i: int| 0 <= i < d.len() implies '0' <= #[trigger] d[i] <= '9' by {
            if i < d.len() - 1 {
                assert(d[i] == decimal(n / 10)[i]);
            }
        }
    }
}

proof fn lemma_digit_value(d: nat)
    requires
        d < 10,
    ensures
        digit_char(d) as int - '0' as int == d,
        '0' <= digit_char(d) <= '9',
{
}

/// `a` in normal mode asks to stage the selected file; for a deleted file
/// it asks for a refresh, and with nothing selected it does nothing. The
/// state stays as it is.
pub proof fn law_add_key_stages_selection(app: AppView)
    requires
        app.mode == Mode::Normal,
    ensures
        app.key_step(Key::Char('a')).0 == app,
        app.selected_entry() is None ==> app.key_step(Key::Char('a')).1 == ActionView::Continue,
        app.selected_entry() matches Some(e) ==> e.kind != EntryKind::Deleted ==> app.key_step(
            Key::Char('a'),
        ).1 == ActionView::Stage(e),
        app.selected_entry() matches Some(e) ==> e.kind == EntryKind::Deleted ==> app.key_step(
            Key::Char('a'),
        ).1 == ActionView::Refresh,
{
}

/// Enter on an empty message closes the message input and keeps what was
/// there; Esc does the same whatever the message.
pub proof fn law_empty_message_closes_input(app: AppView)
    requires
        app.mode == Mode::CommitInput,
    ensures
        app.commit_msg.len() == 0 ==> app.key_step(Key::Enter) == (
            AppView { mode: Mode::Normal, ..app },
            ActionView::Continue,
        ),
        app.key_step(Key::Esc) == (AppView { mode: Mode::Normal, ..app }, ActionView::Continue),
{
}

} // verus!
