//! The values the front end works with: panes, file entries, commits,
//! diff lines, keys and the actions a key asks for.

use vstd::prelude::*;

verus! {

/// The pane that has the focus.
#[derive(PartialEq, Eq, Structural, Clone, Copy, Debug)]
pub enum Pane {
    Files,
    Log,
    Tree,
}

/// The part of the Files pane that the selection is in.
#[derive(PartialEq, Eq, Structural, Clone, Copy, Debug)]
pub enum FileSection {
    Unstaged,
    Untracked,
}

/// Whether keys drive the panes or type a commit message.
#[derive(PartialEq, Eq, Structural, Clone, Copy, Debug)]
pub enum Mode {
    Normal,
    CommitInput,
}

/// How a file differs from the index.
#[derive(PartialEq, Eq, Structural, Clone, Copy, Debug)]
pub enum EntryKind {
    Modified,
    Deleted,
    Untracked,
}

/// A file shown in the Files pane.
#[derive(Debug)]
pub struct FileEntry {
    pub path: String,
    pub kind: EntryKind,
}

pub struct FileEntryView {
    pub path: Seq<char>,
    pub kind: EntryKind,
}

impl View for FileEntry {
    type V = FileEntryView;

    open spec fn view(&self) -> FileEntryView {
        FileEntryView { path: self.path@, kind: self.kind }
    }
}

impl DeepView for FileEntry {
    type V = FileEntryView;

    open spec fn deep_view(&self) -> FileEntryView {
        self@
    }
}

impl Clone for FileEntry {
    fn clone(&self) -> (e: Self)
        ensures
            e@ == self@,
    {
        FileEntry { path: self.path.clone(), kind: self.kind }
    }
}

/// A commit of the log: its hash and the first line of its message.
#[derive(Debug)]
pub struct CommitInfo {
    pub hash: String,
    pub message: String,
}

pub struct CommitInfoView {
    pub hash: Seq<char>,
    pub message: Seq<char>,
}

impl View for CommitInfo {
    type V = CommitInfoView;

    open spec fn view(&self) -> CommitInfoView {
        CommitInfoView { hash: self.hash@, message: self.message@ }
    }
}

impl DeepView for CommitInfo {
    type V = CommitInfoView;

    open spec fn deep_view(&self) -> CommitInfoView {
        self@
    }
}

impl Clone for CommitInfo {
    fn clone(&self) -> (c: Self)
        ensures
            c@ == self@,
    {
        CommitInfo { hash: self.hash.clone(), message: self.message.clone() }
    }
}

/// A line of the Diff pane.
#[derive(Debug)]
pub enum DiffLine {
    Header(String),
    Added(String),
    Removed(String),
    Context(String),
}

pub enum DiffLineView {
    Header(Seq<char>),
    Added(Seq<char>),
    Removed(Seq<char>),
    Context(Seq<char>),
}

impl View for DiffLine {
    type V = DiffLineView;

    open spec fn view(&self) -> DiffLineView {
        match self {
            DiffLine::Header(s) => DiffLineView::Header(s@),
            DiffLine::Added(s) => DiffLineView::Added(s@),
            DiffLine::Removed(s) => DiffLineView::Removed(s@),
            DiffLine::Context(s) => DiffLineView::Context(s@),
        }
    }
}

impl DeepView for DiffLine {
    type V = DiffLineView;

    open spec fn deep_view(&self) -> DiffLineView {
        self@
    }
}

/// A key press, as far as the front end tells keys apart.
#[derive(PartialEq, Eq, Structural, Clone, Copy, Debug)]
pub enum Key {
    Char(char),
    Tab,
    Up,
    Down,
    Enter,
    Esc,
    Backspace,
    Other,
}

/// What the caller has to do after a key press.
#[derive(Debug)]
pub enum Action {
    /// Nothing beyond drawing again.
    Continue,
    /// Leave the program.
    Quit,
    /// Read what `App::diff_request` names and hand it to `App::update_diff`.
    ReloadDiff,
    /// Store the file of this entry and add it to the index, report it with
    /// `App::note_staged`, then refresh.
    Stage(FileEntry),
    /// Refresh without staging anything.
    Refresh,
    /// Commit the index with the message in `App::commit_msg`: ask
    /// `App::plan_commit` what to write (it closes the message input when
    /// there is nothing to commit), report a commit made with
    /// `App::note_committed` (which closes the message input), and refresh.
    /// The message input stays open when committing fails.
    Commit,
}

pub enum ActionView {
    Continue,
    Quit,
    ReloadDiff,
    Stage(FileEntryView),
    Refresh,
    Commit,
}

impl View for Action {
    type V = ActionView;

    open spec fn view(&self) -> ActionView {
        match self {
            Action::Continue => ActionView::Continue,
            Action::Quit => ActionView::Quit,
            Action::ReloadDiff => ActionView::ReloadDiff,
            Action::Stage(e) => ActionView::Stage(e@),
            Action::Refresh => ActionView::Refresh,
            Action::Commit => ActionView::Commit,
        }
    }
}

/// An entry of the index: a tracked path and the hash of its stored blob.
#[derive(Debug)]
pub struct IndexEntry {
    pub path: String,
    pub hash: String,
}

pub struct IndexEntryView {
    pub path: Seq<char>,
    pub hash: Seq<char>,
}

impl View for IndexEntry {
    type V = IndexEntryView;

    open spec fn view(&self) -> IndexEntryView {
        IndexEntryView { path: self.path@, hash: self.hash@ }
    }
}

impl DeepView for IndexEntry {
    type V = IndexEntryView;

    open spec fn deep_view(&self) -> IndexEntryView {
        self@
    }
}

/// What was read for one index entry while refreshing: whether its file
/// exists in the working tree, the file's text (empty when it could not be
/// read as text) and the bytes of the stored blob (empty when it could not
/// be read).
#[derive(Debug)]
pub struct IndexFileState {
    pub path: String,
    pub present: bool,
    pub current: String,
    pub stored: Vec<u8>,
}

pub struct IndexFileStateView {
    pub path: Seq<char>,
    pub present: bool,
    pub current: Seq<char>,
    pub stored: Seq<u8>,
}

impl View for IndexFileState {
    type V = IndexFileStateView;

    open spec fn view(&self) -> IndexFileStateView {
        IndexFileStateView {
            path: self.path@,
            present: self.present,
            current: self.current@,
            stored: self.stored@,
        }
    }
}

impl DeepView for IndexFileState {
    type V = IndexFileStateView;

    open spec fn deep_view(&self) -> IndexFileStateView {
        self@
    }
}

/// An entry of a tree object: its mode, its file name and the hash of its
/// blob.
#[derive(Debug)]
pub struct TreeItem {
    pub mode: String,
    pub name: String,
    pub hash: String,
}

pub struct TreeItemView {
    pub mode: Seq<char>,
    pub name: Seq<char>,
    pub hash: Seq<char>,
}

impl View for TreeItem {
    type V = TreeItemView;

    open spec fn view(&self) -> TreeItemView {
        TreeItemView { mode: self.mode@, name: self.name@, hash: self.hash@ }
    }
}

impl DeepView for TreeItem {
    type V = TreeItemView;

    open spec fn deep_view(&self) -> TreeItemView {
        self@
    }
}

} // verus!
