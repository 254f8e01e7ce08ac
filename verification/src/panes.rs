//! What each pane shows: the rows of the Files, Log and Diff panes and the
//! text of the status bar, ready to be drawn.

use vstd::prelude::*;
use crate::model::{
    CommitInfoView, DiffLine, DiffLineView, EntryKind, FileEntry, FileEntryView, FileSection, Mode,
    Pane,
};
use crate::state::{App, AppView};
use crate::text::{byte_prefix, decimal, decimal_string, joined, owned, prefix_bytes};
use vstd::utf8::{encode_utf8, is_char_boundary};

verus! {

broadcast use vstd::string::group_string_axioms;

/// A row of the Files pane.
#[derive(Debug)]
pub enum FileRow {
    /// The title of a section, such as ` Unstaged (2) `.
    Header { label: String, section: FileSection },
    /// A file: its marker (such as `  M `), the kind whose colour it takes,
    /// its path, and whether the selection is on it.
    Entry { marker: String, tone: EntryKind, path: String, selected: bool },
    /// The text shown when there is no file at all.
    Placeholder(String),
}

pub enum FileRowView {
    Header { label: Seq<char>, section: FileSection },
    Entry { marker: Seq<char>, tone: EntryKind, path: Seq<char>, selected: bool },
    Placeholder(Seq<char>),
}

impl View for FileRow {
    type V = FileRowView;

    open spec fn view(&self) -> FileRowView {
        match self {
            FileRow::Header { label, section } => FileRowView::Header {
                label: label@,
                section: *section,
            },
            FileRow::Entry { marker, tone, path, selected } => FileRowView::Entry {
                marker: marker@,
                tone: *tone,
                path: path@,
                selected: *selected,
            },
            FileRow::Placeholder(s) => FileRowView::Placeholder(s@),
        }
    }
}

impl DeepView for FileRow {
    type V = FileRowView;

    open spec fn deep_view(&self) -> FileRowView {
        self@
    }
}

/// A row of the Log pane.
#[derive(Debug)]
pub enum LogRow {
    /// A commit: its short hash framed by spaces, its message, and whether
    /// the selection is on it.
    Commit { hash_label: String, message: String, selected: bool },
    /// The text shown when there is no commit.
    Placeholder(String),
}

pub enum LogRowView {
    Commit { hash_label: Seq<char>, message: Seq<char>, selected: bool },
    Placeholder(Seq<char>),
}

impl View for LogRow {
    type V = LogRowView;

    open spec fn view(&self) -> LogRowView {
        match self {
            LogRow::Commit { hash_label, message, selected } => LogRowView::Commit {
                hash_label: hash_label@,
                message: message@,
                selected: *selected,
            },
            LogRow::Placeholder(s) => LogRowView::Placeholder(s@),
        }
    }
}

impl DeepView for LogRow {
    type V = LogRowView;

    open spec fn deep_view(&self) -> LogRowView {
        self@
    }
}

/// The kind of a row of the Diff pane, which decides its colour.
#[derive(PartialEq, Eq, Structural, Clone, Copy, Debug)]
pub enum DiffTone {
    Header,
    Added,
    Removed,
    Context,
}

/// A row of the Diff pane: its kind and its text.
#[derive(Debug)]
pub struct DiffRow {
    pub tone: DiffTone,
    pub text: String,
}

pub struct DiffRowView {
    pub tone: DiffTone,
    pub text: Seq<char>,
}

impl View for DiffRow {
    type V = DiffRowView;

    open spec fn view(&self) -> DiffRowView {
        DiffRowView { tone: self.tone, text: self.text@ }
    }
}

impl DeepView for DiffRow {
    type V = DiffRowView;

    open spec fn deep_view(&self) -> DiffRowView {
        self@
    }
}

/// The one-letter marker of a kind of file.
pub open spec fn kind_sigil(kind: EntryKind) -> Seq<char> {
    match kind {
        EntryKind::Modified => "M"@,
        EntryKind::Deleted => "D"@,
        EntryKind::Untracked => "?"@,
    }
}

/// The title of a section of the Files pane holding `count` files.
pub open spec fn section_label(section: FileSection, count: nat) -> Seq<char> {
    match section {
        FileSection::Unstaged => " Unstaged ("@ + decimal(count) + ") "@,
        FileSection::Untracked => " Untracked ("@ + decimal(count) + ") "@,
    }
}

/// The rows of the Unstaged section: a title, then each file with the
/// marker of its kind.
pub open spec fn unstaged_rows(app: AppView) -> Seq<FileRowView> {
    if app.unstaged.len() == 0 {
        seq![]
    } else {
        seq![FileRowView::Header {
            label: section_label(FileSection::Unstaged, app.unstaged.len()),
            section: FileSection::Unstaged,
        }] + Seq::new(
            app.unstaged.len(),
            |i: int|
                FileRowView::Entry {
                    marker: "  "@ + kind_sigil(app.unstaged[i].kind) + " "@,
                    tone: app.unstaged[i].kind,
                    path: app.unstaged[i].path,
                    selected: app.pane == Pane::Files && app.file_section == FileSection::Unstaged
                        && i == app.unstaged_idx,
                },
        )
    }
}

/// The rows of the Untracked section: a title, then each file marked `?`.
pub open spec fn untracked_rows(app: AppView) -> Seq<FileRowView> {
    if app.untracked.len() == 0 {
        seq![]
    } else {
        seq![FileRowView::Header {
            label: section_label(FileSection::Untracked, app.untracked.len()),
            section: FileSection::Untracked,
        }] + Seq::new(
            app.untracked.len(),
            |i: int|
                FileRowView::Entry {
                    marker: "  "@ + kind_sigil(EntryKind::Untracked) + " "@,
                    tone: EntryKind::Untracked,
                    path: app.untracked[i].path,
                    selected: app.pane == Pane::Files && app.file_section
                        == FileSection::Untracked && i == app.untracked_idx,
                },
        )
    }
}

/// The rows of the Files pane.
pub open spec fn file_rows(app: AppView) -> Seq<FileRowView> {
    if app.unstaged.len() == 0 && app.untracked.len() == 0 {
        seq![FileRowView::Placeholder("  nothing to show"@)]
    } else {
        unstaged_rows(app) + untracked_rows(app)
    }
}

/// The row of the Files pane to highlight, counting title rows.
pub open spec fn file_selection(app: AppView) -> Option<nat> {
    if app.pane != Pane::Files {
        None
    } else {
        match app.file_section {
            FileSection::Unstaged => if app.unstaged_idx < app.unstaged.len() {
                Some(app.unstaged_idx + 1)
            } else {
                None
            },
            FileSection::Untracked => if app.untracked_idx < app.untracked.len() {
                Some(
                    app.unstaged.len() + (if app.unstaged.len() > 0 { 1nat } else { 0nat })
                        + 1 + app.untracked_idx,
                )
            } else {
                None
            },
        }
    }
}

/// The short form of a commit hash: its first 7 bytes, or all of it when
/// it is shorter.
pub open spec fn short_hash(hash: Seq<char>) -> Seq<char> {
    if encode_utf8(hash).len() <= 7 {
        hash
    } else {
        byte_prefix(hash, 7)
    }
}

/// A hash whose short form can be cut: it is at most 7 bytes long, or its
/// 7th byte ends a character.
pub open spec fn hash_cuttable(hash: Seq<char>) -> bool {
    encode_utf8(hash).len() <= 7 || is_char_boundary(encode_utf8(hash), 7)
}

/// A row of the Tree pane: a file of the shown commit as its kind and name,
/// and whether the selection is on it.
#[derive(Debug)]
pub enum TreeRow {
    File { label: String, selected: bool },
    Placeholder(String),
}

pub enum TreeRowView {
    File { label: Seq<char>, selected: bool },
    Placeholder(Seq<char>),
}

impl View for TreeRow {
    type V = TreeRowView;

    open spec fn view(&self) -> TreeRowView {
        match self {
            TreeRow::File { label, selected } => TreeRowView::File {
                label: label@,
                selected: *selected,
            },
            TreeRow::Placeholder(s) => TreeRowView::Placeholder(s@),
        }
    }
}

impl DeepView for TreeRow {
    type V = TreeRowView;

    open spec fn deep_view(&self) -> TreeRowView {
        self@
    }
}

/// The word for the kind of a tree entry: `blob` for a regular file, the
/// mode itself otherwise.
pub open spec fn entry_kind_word(mode: Seq<char>) -> Seq<char> {
    if mode == "100644"@ {
        "blob"@
    } else {
        mode
    }
}

/// The rows of the Tree pane.
pub open spec fn tree_rows(app: AppView) -> Seq<TreeRowView> {
    if app.tree.len() == 0 {
        seq![TreeRowView::Placeholder("  nothing to show"@)]
    } else {
        Seq::new(
            app.tree.len(),
            |i: int|
                TreeRowView::File {
                    label: entry_kind_word(app.tree[i].mode) + " "@ + app.tree[i].name,
                    selected: app.pane == Pane::Tree && i == app.tree_idx,
                },
        )
    }
}

/// The row of the Tree pane to highlight.
pub open spec fn tree_selection(app: AppView) -> Option<nat> {
    if app.pane == Pane::Tree && app.tree.len() > 0 {
        Some(app.tree_idx)
    } else {
        None
    }
}

/// The title of the Tree pane: the short hash of the commit it shows.
pub open spec fn tree_title_text(app: AppView) -> Seq<char> {
    match app.tree_commit {
        Some(c) => " Tree @ "@ + short_hash(c) + " "@,
        None => " Tree "@,
    }
}

/// The rows of the Log pane.
pub open spec fn log_rows(app: AppView) -> Seq<LogRowView> {
    if app.log.len() == 0 {
        seq![LogRowView::Placeholder("  no commits yet"@)]
    } else {
        Seq::new(
            app.log.len(),
            |i: int|
                LogRowView::Commit {
                    hash_label: " "@ + short_hash(app.log[i].hash) + " "@,
                    message: app.log[i].message,
                    selected: app.pane == Pane::Log && i == app.log_idx,
                },
        )
    }
}

/// The row of the Log pane to highlight.
pub open spec fn log_selection(app: AppView) -> Option<nat> {
    if app.pane == Pane::Log && app.log.len() > 0 {
        Some(app.log_idx)
    } else {
        None
    }
}

/// How a line of the Diff pane is drawn.
pub open spec fn diff_row(line: DiffLineView) -> DiffRowView {
    match line {
        DiffLineView::Header(s) => DiffRowView { tone: DiffTone::Header, text: s },
        DiffLineView::Added(s) => DiffRowView { tone: DiffTone::Added, text: "+ "@ + s },
        DiffLineView::Removed(s) => DiffRowView { tone: DiffTone::Removed, text: "- "@ + s },
        DiffLineView::Context(s) => DiffRowView { tone: DiffTone::Context, text: "  "@ + s },
    }
}

/// The rows of the Diff pane: the lines below the scroll position.
pub open spec fn diff_rows(app: AppView) -> Seq<DiffRowView> {
    if app.diff_scroll >= app.diff.len() {
        seq![]
    } else {
        app.diff.skip(app.diff_scroll as int).map_values(|l: DiffLineView| diff_row(l))
    }
}

/// The key help shown in the status bar.
pub open spec fn key_help() -> Seq<char> {
    " q:quit  a:add  c:commit  Tab:switch pane  ↑↓/jk:navigate  JK:scroll diff"@
}

/// The text of the status bar: the key help, and the last report if any.
pub open spec fn status_line(app: AppView) -> Seq<char> {
    match app.status {
        Some(s) => key_help() + "  │  "@ + s,
        None => key_help(),
    }
}

fn section_title(section: FileSection, count: usize) -> (label: String)
    ensures
        label@ == section_label(section, count as nat),
{
    let mut s = match section {
        FileSection::Unstaged => owned(" Unstaged ("),
        FileSection::Untracked => owned(" Untracked ("),
    };
    let n = decimal_string(count);
    s.append(n.as_str());
    s.append(") ");
    s
}

fn entry_marker(kind: EntryKind) -> (m: String)
    ensures
        m@ == "  "@ + kind_sigil(kind) + " "@,
{
    match kind {
        EntryKind::Modified => {
            let m = owned("  M ");
            proof {
                reveal_strlit("  M ");
                reveal_strlit("  ");
                reveal_strlit("M");
                reveal_strlit(" ");
            }
            assert(m@ =~= "  "@ + "M"@ + " "@);
            m
        },
        EntryKind::Deleted => {
            let m = owned("  D ");
            proof {
                reveal_strlit("  D ");
                reveal_strlit("  ");
                reveal_strlit("D");
                reveal_strlit(" ");
            }
            assert(m@ =~= "  "@ + "D"@ + " "@);
            m
        },
        EntryKind::Untracked => {
            let m = owned("  ? ");
            proof {
                reveal_strlit("  ? ");
                reveal_strlit("  ");
                reveal_strlit("?");
                reveal_strlit(" ");
            }
            assert(m@ =~= "  "@ + "?"@ + " "@);
            m
        },
    }
}

impl App {
    /// The rows of the Files pane, and the row to highlight.
    pub fn file_list(&self) -> (list: (Vec<FileRow>, Option<usize>))
        requires
            self.unstaged.len() + self.untracked.len() + 2 <= usize::MAX,
        ensures
            list.0.deep_view() == file_rows(self@),
            match list.1 {
                Some(i) => file_selection(self@) == Some(i as nat),
                None => file_selection(self@) is None,
            },
    {
        let ghost app = self@;
        let mut rows: Vec<FileRow> = Vec::new();
        if self.unstaged.len() > 0 {
            rows.push(
                FileRow::Header {
                    label: section_title(FileSection::Unstaged, self.unstaged.len()),
                    section: FileSection::Unstaged,
                },
            );
            let mut i: usize = 0;
            while i < self.unstaged.len()
                invariant
                    app == self@,
                    self.unstaged.len() > 0,
                    i <= self.unstaged.len(),
                    rows.deep_view() == unstaged_rows(app).take(i + 1),
                decreases self.unstaged.len() - i,
            {
                let e = &self.unstaged[i];
                let selected = self.pane == Pane::Files && self.file_section
                    == FileSection::Unstaged && i == self.unstaged_idx;
                let row = FileRow::Entry {
                    marker: entry_marker(e.kind),
                    tone: e.kind,
                    path: e.path.clone(),
                    selected,
                };
                let ghost before = rows.deep_view();
                rows.push(row);
                assert(rows.deep_view() =~= before.push(row@));
                assert(unstaged_rows(app).take(i + 2) =~= unstaged_rows(app).take(i + 1).push(
                    unstaged_rows(app)[i + 1],
                ));
                i = i + 1;
            }
            assert(unstaged_rows(app).take(self.unstaged.len() + 1) =~= unstaged_rows(app));
        } else {
            assert(rows.deep_view() =~= unstaged_rows(app));
        }
        let ghost first = rows.deep_view();
        if self.untracked.len() > 0 {
            rows.push(
                FileRow::Header {
                    label: section_title(FileSection::Untracked, self.untracked.len()),
                    section: FileSection::Untracked,
                },
            );
            let mut i: usize = 0;
            while i < self.untracked.len()
                invariant
                    app == self@,
                    self.untracked.len() > 0,
                    i <= self.untracked.len(),
                    rows.deep_view() == first + untracked_rows(app).take(i + 1),
                decreases self.untracked.len() - i,
            {
                let selected = self.pane == Pane::Files && self.file_section
                    == FileSection::Untracked && i == self.untracked_idx;
                let row = FileRow::Entry {
                    marker: entry_marker(EntryKind::Untracked),
                    tone: EntryKind::Untracked,
                    path: self.untracked[i].path.clone(),
                    selected,
                };
                let ghost before = rows.deep_view();
                rows.push(row);
                assert(rows.deep_view() =~= before.push(row@));
                assert(untracked_rows(app).take(i + 2) =~= untracked_rows(app).take(i + 1).push(
                    untracked_rows(app)[i + 1],
                ));
                assert(row@ == untracked_rows(app)[i + 1]);
                assert(first + untracked_rows(app).take(i + 2) =~= (first + untracked_rows(
                    app,
                ).take(i + 1)).push(row@));
                i = i + 1;
            }
            assert(untracked_rows(app).take(self.untracked.len() + 1) =~= untracked_rows(app));
        } else {
            assert(rows.deep_view() =~= first + untracked_rows(app));
        }
        if rows.len() == 0 {
            rows.push(FileRow::Placeholder(owned("  nothing to show")));
            assert(rows.deep_view() =~= file_rows(app));
        }
        let selected = if self.pane != Pane::Files {
            None
        } else {
            match self.file_section {
                FileSection::Unstaged => if self.unstaged_idx < self.unstaged.len() {
                    Some(self.unstaged_idx + 1)
                } else {
                    None
                },
                FileSection::Untracked => if self.untracked_idx < self.untracked.len() {
                    let headers: usize = if self.unstaged.len() > 0 { 2 } else { 1 };
                    Some(self.unstaged.len() + headers + self.untracked_idx)
                } else {
                    None
                },
            }
        };
        (rows, selected)
    }
}

fn short_hash_of(hash: &str) -> (short: String)
    requires
        hash_cuttable(hash@),
    ensures
        short@ == short_hash(hash@),
{
    broadcast use vstd::utf8::group_utf8_lib;
    if hash.is_char_boundary(7) {
        let p = prefix_bytes(hash, 7);
        proof {
            if encode_utf8(hash@).len() <= 7 {
                assert(encode_utf8(hash@).take(7) =~= encode_utf8(hash@));
            }
        }
        p
    } else {
        owned(hash)
    }
}

fn hash_label(hash: &str) -> (label: String)
    requires
        hash_cuttable(hash@),
    ensures
        label@ == " "@ + short_hash(hash@) + " "@,
{
    let short = short_hash_of(hash);
    let mut label = owned(" ");
    label.append(short.as_str());
    label.append(" ");
    label
}

fn diff_row_of(line: &DiffLine) -> (row: DiffRow)
    ensures
        row@ == diff_row(line@),
{
    match line {
        DiffLine::Header(s) => DiffRow { tone: DiffTone::Header, text: s.clone() },
        DiffLine::Added(s) => DiffRow { tone: DiffTone::Added, text: joined("+ ", s.as_str()) },
        DiffLine::Removed(s) => DiffRow { tone: DiffTone::Removed, text: joined("- ", s.as_str()) },
        DiffLine::Context(s) => DiffRow { tone: DiffTone::Context, text: joined("  ", s.as_str()) },
    }
}

impl App {
    /// The rows of the Log pane, and the row to highlight.
    pub fn log_list(&self) -> (list: (Vec<LogRow>, Option<usize>))
        requires
            forall|i: int| 0 <= i < self@.log.len() ==> hash_cuttable(#[trigger] self@.log[i].hash),
        ensures
            list.0.deep_view() == log_rows(self@),
            match list.1 {
                Some(i) => log_selection(self@) == Some(i as nat),
                None => log_selection(self@) is None,
            },
    {
        let ghost app = self@;
        let mut rows: Vec<LogRow> = Vec::new();
        if self.log.len() == 0 {
            rows.push(LogRow::Placeholder(owned("  no commits yet")));
            assert(rows.deep_view() =~= log_rows(app));
        } else {
            let mut i: usize = 0;
            while i < self.log.len()
                invariant
                    app == self@,
                    self.log.len() > 0,
                    forall|k: int| 0 <= k < app.log.len() ==> hash_cuttable(#[trigger] app.log[k].hash),
                    i <= self.log.len(),
                    rows.deep_view() == log_rows(app).take(i as int),
                decreases self.log.len() - i,
            {
                let c = &self.log[i];
                assert(hash_cuttable(app.log[i as int].hash));
                let row = LogRow::Commit {
                    hash_label: hash_label(c.hash.as_str()),
                    message: c.message.clone(),
                    selected: self.pane == Pane::Log && i == self.log_idx,
                };
                let ghost before = rows.deep_view();
                rows.push(row);
                assert(rows.deep_view() =~= before.push(row@));
                assert(log_rows(app).take(i + 1) =~= log_rows(app).take(i as int).push(
                    log_rows(app)[i as int],
                ));
                i = i + 1;
            }
            assert(log_rows(app).take(self.log.len() as int) =~= log_rows(app));
        }
        let selected = if self.pane == Pane::Log && self.log.len() > 0 {
            Some(self.log_idx)
        } else {
            None
        };
        (rows, selected)
    }

    /// The rows of the Diff pane below the scroll position.
    pub fn diff_view(&self) -> (rows: Vec<DiffRow>)
        ensures
            rows.deep_view() == diff_rows(self@),
    {
        let ghost app = self@;
        let mut rows: Vec<DiffRow> = Vec::new();
        let n = self.diff.len();
        if self.diff_scroll >= n {
            assert(rows.deep_view() =~= diff_rows(app));
            return rows;
        }
        let start = self.diff_scroll;
        let ghost body = app.diff.skip(start as int);
        let mut i: usize = start;
        while i < n
            invariant
                app == self@,
                n == self.diff.len(),
                start <= i <= n,
                body == app.diff.skip(start as int),
                rows.deep_view() == body.take(i - start).map_values(|l: DiffLineView| diff_row(l)),
            decreases n - i,
        {
            let row = diff_row_of(&self.diff[i]);
            let ghost before = rows.deep_view();
            rows.push(row);
            assert(body[i - start] == app.diff[i as int]);
            assert(rows.deep_view() =~= before.push(row@));
            assert(body.take(i + 1 - start).map_values(|l: DiffLineView| diff_row(l)) =~= body.take(
                i - start,
            ).map_values(|l: DiffLineView| diff_row(l)).push(diff_row(body[i - start])));
            i = i + 1;
        }
        assert(body.take(n - start) =~= body);
        rows
    }

    /// The text of the status bar.
    pub fn status_text(&self) -> (text: String)
        ensures
            text@ == status_line(self@),
    {
        let mut text = owned(" q:quit  a:add  c:commit  Tab:switch pane  ↑↓/jk:navigate  JK:scroll diff");
        match &self.status {
            Some(s) => {
                text.append("  │  ");
                text.append(s.as_str());
            },
            None => {},
        }
        text
    }
}

fn kind_word(mode: &str) -> (w: String)
    ensures
        w@ == entry_kind_word(mode@),
{
    let blob_mode = owned("100644");
    let m = owned(mode);
    if m == blob_mode {
        owned("blob")
    } else {
        m
    }
}

impl App {
    /// The rows of the Tree pane, and the row to highlight.
    pub fn tree_list(&self) -> (list: (Vec<TreeRow>, Option<usize>))
        ensures
            list.0.deep_view() == tree_rows(self@),
            match list.1 {
                Some(i) => tree_selection(self@) == Some(i as nat),
                None => tree_selection(self@) is None,
            },
    {
        let ghost app = self@;
        let mut rows: Vec<TreeRow> = Vec::new();
        if self.tree.len() == 0 {
            rows.push(TreeRow::Placeholder(owned("  nothing to show")));
            assert(rows.deep_view() =~= tree_rows(app));
        } else {
            let mut i: usize = 0;
            while i < self.tree.len()
                invariant
                    app == self@,
                    self.tree.len() > 0,
                    i <= self.tree.len(),
                    rows.deep_view() == tree_rows(app).take(i as int),
                decreases self.tree.len() - i,
            {
                let t = &self.tree[i];
                let mut label = kind_word(t.mode.as_str());
                label.append(" ");
                label.append(t.name.as_str());
                let row = TreeRow::File { label, selected: self.pane == Pane::Tree && i == self.tree_idx };
                let ghost before = rows.deep_view();
                rows.push(row);
                assert(rows.deep_view() =~= before.push(row@));
                assert(tree_rows(app).take(i + 1) =~= tree_rows(app).take(i as int).push(
                    tree_rows(app)[i as int],
                ));
                i = i + 1;
            }
            assert(tree_rows(app).take(self.tree.len() as int) =~= tree_rows(app));
        }
        let selected = if self.pane == Pane::Tree && self.tree.len() > 0 {
            Some(self.tree_idx)
        } else {
            None
        };
        (rows, selected)
    }

    /// The title of the Tree pane.
    pub fn tree_title(&self) -> (title: String)
        requires
            self@.tree_commit matches Some(c) ==> hash_cuttable(c),
        ensures
            title@ == tree_title_text(self@),
    {
        match &self.tree_commit {
            Some(c) => {
                let mut t = owned(" Tree @ ");
                let short = short_hash_of(c.as_str());
                t.append(short.as_str());
                t.append(" ");
                t
            },
            None => owned(" Tree "),
        }
    }
}

} // verus!
