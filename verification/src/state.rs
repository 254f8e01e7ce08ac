//! The state of the front end and how keys, refreshes and the outcome of
//! repository work change it.

use vstd::prelude::*;
use vstd::string::StringSliceAdditionalSpecFns;
use vstd::utf8::is_char_boundary;
use crate::diff_pane::{
    blob_diff, blob_diff_lines, commit_diff, commit_diff_lines, deleted_diff, deleted_file_diff, modified_diff,
    modified_file_diff, untracked_diff, untracked_file_diff,
};
use crate::model::{
    ActionView, CommitInfoView, DiffLine, DiffLineView, EntryKind, FileEntry, FileEntryView,
    FileSection, IndexEntry, IndexFileState, IndexFileStateView, Key, Mode, Pane, TreeItem,
    TreeItemView, CommitInfo, Action,
};
use crate::text::{byte_prefix, prefix_bytes, lossy_text, push_char, pop_char, joined, owned, text_from_bytes};

verus! {

broadcast use vstd::string::group_string_axioms;

/// The whole state of the front end.
pub struct App {
    pub pane: Pane,
    pub file_section: FileSection,
    pub unstaged: Vec<FileEntry>,
    pub untracked: Vec<FileEntry>,
    pub log: Vec<CommitInfo>,
    pub unstaged_idx: usize,
    pub untracked_idx: usize,
    pub log_idx: usize,
    pub tree: Vec<TreeItem>,
    pub tree_idx: usize,
    pub tree_commit: Option<String>,
    pub diff: Vec<DiffLine>,
    pub diff_scroll: usize,
    pub mode: Mode,
    pub commit_msg: String,
    pub status: Option<String>,
}

/// The state of the front end as values.
#[verifier::ext_equal]
pub struct AppView {
    pub pane: Pane,
    pub file_section: FileSection,
    pub unstaged: Seq<FileEntryView>,
    pub untracked: Seq<FileEntryView>,
    pub log: Seq<CommitInfoView>,
    pub unstaged_idx: nat,
    pub untracked_idx: nat,
    pub log_idx: nat,
    pub tree: Seq<TreeItemView>,
    pub tree_idx: nat,
    pub tree_commit: Option<Seq<char>>,
    pub diff: Seq<DiffLineView>,
    pub diff_scroll: nat,
    pub mode: Mode,
    pub commit_msg: Seq<char>,
    pub status: Option<Seq<char>>,
}

impl View for App {
    type V = AppView;

    open spec fn view(&self) -> AppView {
        AppView {
            pane: self.pane,
            file_section: self.file_section,
            unstaged: self.unstaged.deep_view(),
            untracked: self.untracked.deep_view(),
            log: self.log.deep_view(),
            unstaged_idx: self.unstaged_idx as nat,
            untracked_idx: self.untracked_idx as nat,
            log_idx: self.log_idx as nat,
            tree: self.tree.deep_view(),
            tree_idx: self.tree_idx as nat,
            tree_commit: self.tree_commit.deep_view(),
            diff: self.diff.deep_view(),
            diff_scroll: self.diff_scroll as nat,
            mode: self.mode,
            commit_msg: self.commit_msg@,
            status: self.status.deep_view(),
        }
    }
}

/// What has to be read before the Diff pane can be filled.
#[derive(Debug)]
pub enum DiffRequest {
    /// Nothing is selected: the pane stays empty.
    Nothing,
    /// The stored blob of this indexed path.
    Stored(String),
    /// The working tree text of this path.
    Current(String),
    /// Both the stored blob and the working tree text of this path.
    StoredAndCurrent(String),
    /// The commit object of this hash.
    Object(String),
    /// The blob of this hash, a file of the commit shown in the Tree pane.
    Blob(String),
}

pub enum DiffRequestView {
    Nothing,
    Stored(Seq<char>),
    Current(Seq<char>),
    StoredAndCurrent(Seq<char>),
    Object(Seq<char>),
    Blob(Seq<char>),
}

impl View for DiffRequest {
    type V = DiffRequestView;

    open spec fn view(&self) -> DiffRequestView {
        match self {
            DiffRequest::Nothing => DiffRequestView::Nothing,
            DiffRequest::Stored(p) => DiffRequestView::Stored(p@),
            DiffRequest::Current(p) => DiffRequestView::Current(p@),
            DiffRequest::StoredAndCurrent(p) => DiffRequestView::StoredAndCurrent(p@),
            DiffRequest::Object(h) => DiffRequestView::Object(h@),
            DiffRequest::Blob(h) => DiffRequestView::Blob(h@),
        }
    }
}

/// What was read for the Diff pane: the stored blob (empty when it was not
/// asked for or could not be read), the working tree text (empty when it
/// was not asked for or could not be read as text), and the commit object
/// or blob (`None` when it was not asked for or could not be read).
#[derive(Debug)]
pub struct DiffContent {
    pub stored: Vec<u8>,
    pub current: String,
    pub object: Option<Vec<u8>>,
}

pub struct DiffContentView {
    pub stored: Seq<u8>,
    pub current: Seq<char>,
    pub object: Option<Seq<u8>>,
}

impl View for DiffContent {
    type V = DiffContentView;

    open spec fn view(&self) -> DiffContentView {
        DiffContentView {
            stored: self.stored@,
            current: self.current@,
            object: match self.object {
                Some(b) => Some(b@),
                None => None,
            },
        }
    }
}

/// What a directory walk does with one entry of the working tree.
#[derive(PartialEq, Eq, Structural, Clone, Copy, Debug)]
pub enum WalkStep {
    /// Leave it out, and anything below it.
    Skip,
    /// Walk into the directory.
    Descend,
    /// Report the file as untracked.
    Report,
}

/// The index `idx` brought back into a list of `len` entries: an index past
/// the end moves to the last entry, or to 0 for an empty list.
pub open spec fn clamped(idx: nat, len: nat) -> nat {
    if idx >= (if len > 1 { len } else { 1 }) {
        if len > 0 { (len - 1) as nat } else { 0 }
    } else {
        idx
    }
}

/// The files of the index that differ from the working tree, in index order:
/// a missing file as deleted, a file whose text is not the stored text as
/// modified.
pub open spec fn unstaged_entries(index: Seq<IndexFileStateView>) -> Seq<FileEntryView>
    decreases index.len(),
{
    if index.len() == 0 {
        seq![]
    } else {
        let rest = unstaged_entries(index.drop_last());
        let e = index.last();
        if !e.present {
            rest.push(FileEntryView { path: e.path, kind: EntryKind::Deleted })
        } else if e.current != lossy_text(e.stored) {
            rest.push(FileEntryView { path: e.path, kind: EntryKind::Modified })
        } else {
            rest
        }
    }
}

/// Untracked entries for the paths a walk reported.
pub open spec fn untracked_entries(paths: Seq<Seq<char>>) -> Seq<FileEntryView> {
    paths.map_values(|p: Seq<char>| FileEntryView { path: p, kind: EntryKind::Untracked })
}

/// The first 7 bytes of a commit hash.
pub open spec fn hash_prefix(hash: Seq<char>) -> Seq<char> {
    byte_prefix(hash, 7)
}

impl AppView {
    /// The state right after start-up, before the first refresh.
    pub open spec fn initial() -> AppView {
        AppView {
            pane: Pane::Files,
            file_section: FileSection::Unstaged,
            unstaged: seq![],
            untracked: seq![],
            log: seq![],
            unstaged_idx: 0,
            untracked_idx: 0,
            log_idx: 0,
            tree: seq![],
            tree_idx: 0,
            tree_commit: None,
            diff: seq![],
            diff_scroll: 0,
            mode: Mode::Normal,
            commit_msg: seq![],
            status: None,
        }
    }

    /// Every selection index is inside its list, or 0 for an empty list.
    pub open spec fn selection_in_range(self) -> bool {
        &&& (self.unstaged_idx < self.unstaged.len() || self.unstaged_idx == 0)
        &&& (self.untracked_idx < self.untracked.len() || self.untracked_idx == 0)
        &&& (self.log_idx < self.log.len() || self.log_idx == 0)
        &&& (self.tree_idx < self.tree.len() || self.tree_idx == 0)
    }

    /// The file entry under the selection of the Files pane.
    pub open spec fn selected_entry(self) -> Option<FileEntryView> {
        match self.file_section {
            FileSection::Unstaged => if self.unstaged_idx < self.unstaged.len() {
                Some(self.unstaged[self.unstaged_idx as int])
            } else {
                None
            },
            FileSection::Untracked => if self.untracked_idx < self.untracked.len() {
                Some(self.untracked[self.untracked_idx as int])
            } else {
                None
            },
        }
    }

    /// The commit under the selection of the Log pane.
    pub open spec fn selected_commit(self) -> Option<CommitInfoView> {
        if self.log_idx < self.log.len() {
            Some(self.log[self.log_idx as int])
        } else {
            None
        }
    }

    /// The file under the selection of the Tree pane.
    pub open spec fn selected_tree_item(self) -> Option<TreeItemView> {
        if self.tree_idx < self.tree.len() {
            Some(self.tree[self.tree_idx as int])
        } else {
            None
        }
    }

    /// The commit whose files the Tree pane is to show: the one selected in
    /// the Log pane.
    pub open spec fn wanted_tree(self) -> Option<Seq<char>> {
        match self.selected_commit() {
            Some(c) => Some(c.hash),
            None => None,
        }
    }

    /// The Tree pane emptied when it shows another commit than the one
    /// selected in the Log pane.
    pub open spec fn tree_synced(self) -> AppView {
        if self.tree_commit == self.wanted_tree() {
            self
        } else {
            AppView { tree: seq![], tree_idx: 0, tree_commit: None, ..self }
        }
    }

    /// The commit whose files have to be read for the Tree pane, if the pane
    /// does not show them yet.
    pub open spec fn tree_request(self) -> Option<Seq<char>> {
        match self.wanted_tree() {
            Some(h) => if self.tree_commit == Some(h) {
                None
            } else {
                Some(h)
            },
            None => None,
        }
    }

    /// The Tree pane showing `entries`, the files of `commit`, with the
    /// first one selected.
    pub open spec fn tree_loaded(self, commit: Seq<char>, entries: Seq<TreeItemView>) -> AppView {
        AppView { tree: entries, tree_idx: 0, tree_commit: Some(commit), ..self }
    }

    /// The Diff pane emptied and scrolled to the top until it is filled
    /// again for the new selection.
    pub open spec fn diff_pending(self) -> AppView {
        AppView { diff: seq![], diff_scroll: 0, ..self }
    }

    /// The selection moved one step up (`up`) or down in the focused pane.
    /// In the Files pane, moving down past the last unstaged file goes on to
    /// the first untracked file, and moving up past the first untracked file
    /// goes back to the last unstaged file.
    pub open spec fn selection_moved(self, up: bool) -> AppView {
        match self.pane {
            Pane::Files => match self.file_section {
                FileSection::Unstaged => if up {
                    if self.unstaged_idx > 0 {
                        AppView { unstaged_idx: (self.unstaged_idx - 1) as nat, ..self }
                    } else {
                        self
                    }
                } else if self.unstaged_idx + 1 < self.unstaged.len() {
                    AppView { unstaged_idx: self.unstaged_idx + 1, ..self }
                } else if self.untracked.len() > 0 {
                    AppView { file_section: FileSection::Untracked, untracked_idx: 0, ..self }
                } else {
                    self
                },
                FileSection::Untracked => if up {
                    if self.untracked_idx > 0 {
                        AppView { untracked_idx: (self.untracked_idx - 1) as nat, ..self }
                    } else if self.unstaged.len() > 0 {
                        AppView {
                            file_section: FileSection::Unstaged,
                            unstaged_idx: (self.unstaged.len() - 1) as nat,
                            ..self
                        }
                    } else {
                        self
                    }
                } else if self.untracked_idx + 1 < self.untracked.len() {
                    AppView { untracked_idx: self.untracked_idx + 1, ..self }
                } else {
                    self
                },
            },
            Pane::Log => if up {
                AppView {
                    log_idx: if self.log_idx > 0 { (self.log_idx - 1) as nat } else { 0 },
                    ..self
                }
            } else if self.log_idx + 1 < self.log.len() {
                AppView { log_idx: self.log_idx + 1, ..self }
            } else {
                self
            },
            Pane::Tree => if up {
                AppView {
                    tree_idx: if self.tree_idx > 0 { (self.tree_idx - 1) as nat } else { 0 },
                    ..self
                }
            } else if self.tree_idx + 1 < self.tree.len() {
                AppView { tree_idx: self.tree_idx + 1, ..self }
            } else {
                self
            },
        }
    }

    /// A step of navigation: the selection moves, the Tree pane is emptied
    /// if another commit got selected, and the Diff pane waits to be filled
    /// for the new selection.
    pub open spec fn navigated(self, up: bool) -> AppView {
        self.selection_moved(up).tree_synced().diff_pending()
    }

    /// The focus moves on: Files, then Log, then Tree, then Files again;
    /// the Diff pane waits to be filled for the new pane.
    pub open spec fn pane_switched(self) -> AppView {
        AppView {
            pane: match self.pane {
                Pane::Files => Pane::Log,
                Pane::Log => Pane::Tree,
                Pane::Tree => Pane::Files,
            },
            ..self
        }.diff_pending()
    }

    /// What a key does in normal mode.
    pub open spec fn normal_key_step(self, key: Key) -> (AppView, ActionView) {
        match key {
            Key::Char('q') => (self, ActionView::Quit),
            Key::Char('c') => (
                AppView { mode: Mode::CommitInput, commit_msg: seq![], status: None, ..self },
                ActionView::Continue,
            ),
            Key::Char('a') => (
                self,
                match self.selected_entry() {
                    None => ActionView::Continue,
                    Some(e) => if e.kind == EntryKind::Deleted {
                        ActionView::Refresh
                    } else {
                        ActionView::Stage(e)
                    },
                },
            ),
            Key::Tab => (self.pane_switched(), ActionView::ReloadDiff),
            Key::Up | Key::Char('k') => (self.navigated(true), ActionView::ReloadDiff),
            Key::Down | Key::Char('j') => (self.navigated(false), ActionView::ReloadDiff),
            Key::Char('J') => (
                AppView {
                    diff_scroll: if self.diff_scroll + 3 > usize::MAX {
                        usize::MAX as nat
                    } else {
                        self.diff_scroll + 3
                    },
                    ..self
                },
                ActionView::Continue,
            ),
            Key::Char('K') => (
                AppView {
                    diff_scroll: if self.diff_scroll >= 3 {
                        (self.diff_scroll - 3) as nat
                    } else {
                        0
                    },
                    ..self
                },
                ActionView::Continue,
            ),
            _ => (self, ActionView::Continue),
        }
    }

    /// What a key does while a commit message is typed.
    pub open spec fn commit_input_key_step(self, key: Key) -> (AppView, ActionView) {
        match key {
            Key::Esc => (AppView { mode: Mode::Normal, ..self }, ActionView::Continue),
            Key::Enter => if self.commit_msg.len() > 0 {
                (self, ActionView::Commit)
            } else {
                (AppView { mode: Mode::Normal, ..self }, ActionView::Continue)
            },
            Key::Backspace => (
                AppView {
                    commit_msg: if self.commit_msg.len() > 0 {
                        self.commit_msg.drop_last()
                    } else {
                        self.commit_msg
                    },
                    ..self
                },
                ActionView::Continue,
            ),
            Key::Char(c) => (
                AppView { commit_msg: self.commit_msg.push(c), ..self },
                ActionView::Continue,
            ),
            _ => (self, ActionView::Continue),
        }
    }

    /// What a key does.
    pub open spec fn key_step(self, key: Key) -> (AppView, ActionView) {
        match self.mode {
            Mode::CommitInput => self.commit_input_key_step(key),
            Mode::Normal => self.normal_key_step(key),
        }
    }

    /// The state once freshly read files replace the old ones; the
    /// selections are brought back into their lists.
    pub open spec fn files_loaded(
        self,
        index: Seq<IndexFileStateView>,
        untracked: Seq<Seq<char>>,
    ) -> AppView {
        let unstaged = unstaged_entries(index);
        let untracked = untracked_entries(untracked);
        AppView {
            unstaged,
            untracked,
            unstaged_idx: clamped(self.unstaged_idx, unstaged.len()),
            untracked_idx: clamped(self.untracked_idx, untracked.len()),
            ..self
        }
    }

    /// The state once freshly read files and history replace the old ones:
    /// the selections of the file lists are brought back into their lists,
    /// the Tree pane is emptied if the selected commit changed, and the Diff
    /// pane waits to be filled again.
    pub open spec fn refreshed(
        self,
        index: Seq<IndexFileStateView>,
        untracked: Seq<Seq<char>>,
        log: Seq<CommitInfoView>,
    ) -> AppView {
        AppView { log, ..self.files_loaded(index, untracked) }.tree_synced().diff_pending()
    }

    /// What has to be read to fill the Diff pane.
    pub open spec fn diff_request(self) -> DiffRequestView {
        match self.pane {
            Pane::Files => match self.selected_entry() {
                None => DiffRequestView::Nothing,
                Some(e) => match e.kind {
                    EntryKind::Deleted => DiffRequestView::Stored(e.path),
                    EntryKind::Untracked => DiffRequestView::Current(e.path),
                    EntryKind::Modified => DiffRequestView::StoredAndCurrent(e.path),
                },
            },
            Pane::Log => match self.selected_commit() {
                None => DiffRequestView::Nothing,
                Some(c) => DiffRequestView::Object(c.hash),
            },
            Pane::Tree => match self.selected_tree_item() {
                None => DiffRequestView::Nothing,
                Some(t) => DiffRequestView::Blob(t.hash),
            },
        }
    }

    /// The lines of the Diff pane for what was read.
    pub open spec fn diff_for(self, content: DiffContentView) -> Seq<DiffLineView> {
        match self.pane {
            Pane::Files => match self.selected_entry() {
                None => seq![],
                Some(e) => match e.kind {
                    EntryKind::Deleted => deleted_diff(e.path, lossy_text(content.stored)),
                    EntryKind::Untracked => untracked_diff(e.path, content.current),
                    EntryKind::Modified => modified_diff(
                        e.path,
                        lossy_text(content.stored),
                        content.current,
                    ),
                },
            },
            Pane::Log => match self.selected_commit() {
                None => seq![],
                Some(c) => match content.object {
                    None => seq![],
                    Some(bytes) => commit_diff_lines(c.hash, lossy_text(bytes)),
                },
            },
            Pane::Tree => match self.selected_tree_item() {
                None => seq![],
                Some(t) => match content.object {
                    None => seq![],
                    Some(bytes) => blob_diff_lines(t.name, lossy_text(bytes)),
                },
            },
        }
    }

    /// The Diff pane filled from what was read, scrolled to the top.
    pub open spec fn diff_updated(self, content: DiffContentView) -> AppView {
        AppView { diff: self.diff_for(content), diff_scroll: 0, ..self }
    }
}

/// Whether `name` names the repository's own directory or git's.
pub open spec fn is_repository_dir(name: Option<Seq<char>>) -> bool {
    name == Some(".isi"@) || name == Some(".git"@)
}

/// What a walk of the working tree does with an entry that is not the
/// repository's own directory.
pub open spec fn walk_step(rel: Seq<char>, is_dir: bool, ignored: bool, indexed: Seq<Seq<char>>) -> WalkStep {
    if ignored {
        WalkStep::Skip
    } else if is_dir {
        WalkStep::Descend
    } else if indexed.contains(rel) {
        WalkStep::Skip
    } else {
        WalkStep::Report
    }
}

/// Whether a walk of the working tree leaves out an entry by its own name
/// alone: the repository's own directory and git's.
pub fn names_repository_dir(name: Option<String>) -> (skip: bool)
    ensures
        skip == (name.deep_view() == Some(".isi"@) || name.deep_view() == Some(".git"@)),
        skip == is_repository_dir(name.deep_view()),
{
    match &name {
        Some(n) => {
            let isi = owned(".isi");
            let git = owned(".git");
            *n == isi || *n == git
        },
        None => false,
    }
}

/// Decides what a walk of the working tree does with one entry: `rel` is its
/// path from the repository root, `ignored` whether the ignore rules leave
/// it out, `indexed` the paths in the index.
pub fn walk_decision(rel: &str, is_dir: bool, ignored: bool, indexed: &Vec<String>) -> (step: WalkStep)
    ensures
        step == walk_step(rel@, is_dir, ignored, indexed.deep_view()),
{
    if ignored {
        return WalkStep::Skip;
    }
    if is_dir {
        return WalkStep::Descend;
    }
    let r = owned(rel);
    let mut i: usize = 0;
    while i < indexed.len()
        invariant
            i <= indexed.len(),
            r@ == rel@,
            !ignored,
            !is_dir,
            forall|j: int| 0 <= j < i ==> indexed.deep_view()[j] != rel@,
        decreases indexed.len() - i,
    {
        if indexed[i] == r {
            assert(indexed.deep_view()[i as int] == rel@);
            return WalkStep::Skip;
        }
        i = i + 1;
    }
    assert(!indexed.deep_view().contains(rel@));
    WalkStep::Report
}

/// The paths of the index, in order.
pub fn tracked_paths(index: &Vec<IndexFileState>) -> (paths: Vec<String>)
    ensures
        paths.deep_view() == index.deep_view().map_values(|e: IndexFileStateView| e.path),
{
    let mut paths: Vec<String> = Vec::new();
    let mut i: usize = 0;
    while i < index.len()
        invariant
            i <= index.len(),
            paths.deep_view() == index.deep_view().take(i as int).map_values(
                |e: IndexFileStateView| e.path,
            ),
        decreases index.len() - i,
    {
        let ghost before = paths.deep_view();
        paths.push(index[i].path.clone());
        assert(paths.deep_view() =~= before.push(index.deep_view()[i as int].path));
        assert(index.deep_view().take(i + 1).map_values(|e: IndexFileStateView| e.path)
            =~= index.deep_view().take(i as int).map_values(|e: IndexFileStateView| e.path).push(
            index.deep_view()[i as int].path,
        ));
        i = i + 1;
    }
    assert(index.deep_view().take(index.len() as int) =~= index.deep_view());
    paths
}

/// The hash of the blob that the index stores for `path`: that of the first
/// entry with this path.
pub fn find_stored_hash(index: &Vec<IndexEntry>, path: &str) -> (hash: Option<String>)
    ensures
        hash is None <==> forall|j: int|
            0 <= j < index.len() ==> #[trigger] index.deep_view()[j].path != path@,
        hash matches Some(h) ==> exists|j: int|
            0 <= j < index.len() && #[trigger] index.deep_view()[j].path == path@ && h@
                == index.deep_view()[j].hash && forall|k: int|
                0 <= k < j ==> index.deep_view()[k].path != path@,
{
    let p = owned(path);
    let mut i: usize = 0;
    while i < index.len()
        invariant
            i <= index.len(),
            p@ == path@,
            forall|j: int| 0 <= j < i ==> #[trigger] index.deep_view()[j].path != path@,
        decreases index.len() - i,
    {
        if index[i].path == p {
            let h = index[i].hash.clone();
            assert(index.deep_view()[i as int].path == path@);
            return Some(h);
        }
        i = i + 1;
    }
    None
}

/// The mode under which a commit records every file.
pub open spec fn file_mode() -> Seq<char> {
    "100644"@
}

/// The tree entries of a commit of the index: every indexed path with its
/// blob hash, as a regular file.
pub fn commit_tree_items(index: &Vec<IndexEntry>) -> (items: Vec<TreeItem>)
    ensures
        items.len() == index.len(),
        forall|i: int|
            0 <= i < index.len() ==> #[trigger] items.deep_view()[i] == (TreeItemView {
                mode: file_mode(),
                name: index.deep_view()[i].path,
                hash: index.deep_view()[i].hash,
            }),
{
    let mut items: Vec<TreeItem> = Vec::new();
    let mut i: usize = 0;
    while i < index.len()
        invariant
            i <= index.len(),
            items.len() == i,
            forall|k: int|
                0 <= k < i ==> #[trigger] items.deep_view()[k] == (TreeItemView {
                    mode: file_mode(),
                    name: index.deep_view()[k].path,
                    hash: index.deep_view()[k].hash,
                }),
        decreases index.len() - i,
    {
        let item = TreeItem {
            mode: owned("100644"),
            name: index[i].path.clone(),
            hash: index[i].hash.clone(),
        };
        let ghost before = items.deep_view();
        items.push(item);
        assert(items.deep_view() =~= before.push(item@));
        i = i + 1;
    }
    items
}

fn clamp_index(idx: usize, len: usize) -> (r: usize)
    ensures
        r as nat == clamped(idx as nat, len as nat),
{
    let floor = if len > 1 { len } else { 1 };
    if idx >= floor {
        len.saturating_sub(1)
    } else {
        idx
    }
}

impl App {
    /// The state right after start-up.
    pub fn new() -> (app: App)
        ensures
            app@ == AppView::initial(),
    {
        let app = App {
            pane: Pane::Files,
            file_section: FileSection::Unstaged,
            unstaged: Vec::new(),
            untracked: Vec::new(),
            log: Vec::new(),
            unstaged_idx: 0,
            untracked_idx: 0,
            log_idx: 0,
            tree: Vec::new(),
            tree_idx: 0,
            tree_commit: None,
            diff: Vec::new(),
            diff_scroll: 0,
            mode: Mode::Normal,
            commit_msg: String::new(),
            status: None,
        };
        assert(app@ =~= AppView::initial());
        app
    }

    /// The file entry under the selection of the Files pane.
    pub fn selected_entry(&self) -> (entry: Option<FileEntry>)
        ensures
            entry.deep_view() == self@.selected_entry(),
    {
        match self.file_section {
            FileSection::Unstaged => if self.unstaged_idx < self.unstaged.len() {
                Some(self.unstaged[self.unstaged_idx].clone())
            } else {
                None
            },
            FileSection::Untracked => if self.untracked_idx < self.untracked.len() {
                Some(self.untracked[self.untracked_idx].clone())
            } else {
                None
            },
        }
    }

    fn move_selection(&mut self, up: bool)
        ensures
            final(self)@ == old(self)@.selection_moved(up),
    {
        match self.pane {
            Pane::Files => {
                let total_unstaged = self.unstaged.len();
                let total_untracked = self.untracked.len();
                match self.file_section {
                    FileSection::Unstaged => {
                        if up {
                            if self.unstaged_idx > 0 {
                                self.unstaged_idx = self.unstaged_idx - 1;
                            }
                        } else if self.unstaged_idx < total_unstaged && self.unstaged_idx + 1
                            < total_unstaged {
                            self.unstaged_idx = self.unstaged_idx + 1;
                        } else if total_untracked > 0 {
                            self.file_section = FileSection::Untracked;
                            self.untracked_idx = 0;
                        }
                    },
                    FileSection::Untracked => {
                        if up {
                            if self.untracked_idx > 0 {
                                self.untracked_idx = self.untracked_idx - 1;
                            } else if total_unstaged > 0 {
                                self.file_section = FileSection::Unstaged;
                                self.unstaged_idx = total_unstaged - 1;
                            }
                        } else if self.untracked_idx < total_untracked && self.untracked_idx + 1
                            < total_untracked {
                            self.untracked_idx = self.untracked_idx + 1;
                        }
                    },
                }
            },
            Pane::Log => {
                if up {
                    self.log_idx = self.log_idx.saturating_sub(1);
                } else if self.log_idx < self.log.len() && self.log_idx + 1 < self.log.len() {
                    self.log_idx = self.log_idx + 1;
                }
            },
            Pane::Tree => {
                if up {
                    self.tree_idx = self.tree_idx.saturating_sub(1);
                } else if self.tree_idx < self.tree.len() && self.tree_idx + 1 < self.tree.len() {
                    self.tree_idx = self.tree_idx + 1;
                }
            },
        }
    }

    /// Empties the Tree pane if it shows another commit than the one
    /// selected in the Log pane.
    fn sync_tree(&mut self)
        ensures
            final(self)@ == old(self)@.tree_synced(),
    {
        let same = if self.log_idx < self.log.len() {
            match &self.tree_commit {
                Some(c) => *c == self.log[self.log_idx].hash,
                None => false,
            }
        } else {
            self.tree_commit.is_none()
        };
        if !same {
            self.tree = Vec::new();
            self.tree_idx = 0;
            self.tree_commit = None;
            assert(self@ =~= old(self)@.tree_synced());
        }
    }

    /// Empties the Diff pane and scrolls it to the top, until it is filled
    /// for the new selection.
    fn clear_diff(&mut self)
        ensures
            final(self)@ == old(self)@.diff_pending(),
    {
        self.diff = Vec::new();
        self.diff_scroll = 0;
        assert(self@ =~= old(self)@.diff_pending());
    }

    /// Moves the selection of the focused pane: up for a negative `delta`,
    /// down otherwise. The Tree pane is emptied if another commit got
    /// selected, and the Diff pane is emptied and scrolled to the top; the
    /// caller then reads what `tree_request` and `diff_request` name.
    pub fn navigate(&mut self, delta: i32)
        ensures
            final(self)@ == old(self)@.navigated(delta < 0),
    {
        self.move_selection(delta < 0);
        self.sync_tree();
        self.clear_diff();
    }

    /// The commit whose files have to be read for the Tree pane, if any.
    pub fn tree_request(&self) -> (hash: Option<String>)
        ensures
            hash.deep_view() == self@.tree_request(),
    {
        if self.log_idx < self.log.len() {
            let h = &self.log[self.log_idx].hash;
            match &self.tree_commit {
                Some(c) => if *c == *h {
                    None
                } else {
                    Some(h.clone())
                },
                None => Some(h.clone()),
            }
        } else {
            None
        }
    }

    /// Shows `entries`, the files of the commit `commit`, in the Tree pane,
    /// with the first one selected.
    pub fn load_tree(&mut self, commit: String, entries: Vec<TreeItem>)
        ensures
            final(self)@ == old(self)@.tree_loaded(commit@, entries.deep_view()),
    {
        self.tree = entries;
        self.tree_idx = 0;
        self.tree_commit = Some(commit);
    }

    /// Applies a key press in normal mode and says what the caller has to
    /// do next.
    pub fn handle_normal(&mut self, key: Key) -> (action: Action)
        requires
            old(self).mode == Mode::Normal,
        ensures
            (final(self)@, action@) == old(self)@.normal_key_step(key),
    {
        match key {
            Key::Char('q') => Action::Quit,
            Key::Char('c') => {
                self.mode = Mode::CommitInput;
                self.commit_msg = String::new();
                self.status = None;
                Action::Continue
            },
            Key::Char('a') => match self.selected_entry() {
                None => Action::Continue,
                Some(e) => if e.kind == EntryKind::Deleted {
                    Action::Refresh
                } else {
                    Action::Stage(e)
                },
            },
            Key::Tab => {
                self.pane = match self.pane {
                    Pane::Files => Pane::Log,
                    Pane::Log => Pane::Tree,
                    Pane::Tree => Pane::Files,
                };
                self.clear_diff();
                Action::ReloadDiff
            },
            Key::Up | Key::Char('k') => {
                self.navigate(-1);
                Action::ReloadDiff
            },
            Key::Down | Key::Char('j') => {
                self.navigate(1);
                Action::ReloadDiff
            },
            Key::Char('J') => {
                self.diff_scroll = self.diff_scroll.saturating_add(3);
                Action::Continue
            },
            Key::Char('K') => {
                self.diff_scroll = self.diff_scroll.saturating_sub(3);
                Action::Continue
            },
            _ => Action::Continue,
        }
    }

    /// Applies a key press while a commit message is typed and says what the
    /// caller has to do next.
    pub fn handle_commit_input(&mut self, key: Key) -> (action: Action)
        requires
            old(self).mode == Mode::CommitInput,
        ensures
            (final(self)@, action@) == old(self)@.commit_input_key_step(key),
    {
        match key {
            Key::Esc => {
                self.mode = Mode::Normal;
                Action::Continue
            },
            Key::Enter => {
                if !self.commit_msg.as_str().is_empty() {
                    Action::Commit
                } else {
                    self.mode = Mode::Normal;
                    Action::Continue
                }
            },
            Key::Backspace => {
                let _ = pop_char(&mut self.commit_msg);
                Action::Continue
            },
            Key::Char(c) => {
                push_char(&mut self.commit_msg, c);
                Action::Continue
            },
            _ => Action::Continue,
        }
    }

    /// Applies a key press and says what the caller has to do next.
    pub fn handle_key(&mut self, key: Key) -> (action: Action)
        ensures
            (final(self)@, action@) == old(self)@.key_step(key),
    {
        match self.mode {
            Mode::CommitInput => self.handle_commit_input(key),
            Mode::Normal => self.handle_normal(key),
        }
    }

    /// What has to be read to fill the Diff pane.
    pub fn diff_request(&self) -> (request: DiffRequest)
        ensures
            request@ == self@.diff_request(),
    {
        match self.pane {
            Pane::Files => match self.selected_entry() {
                None => DiffRequest::Nothing,
                Some(e) => match e.kind {
                    EntryKind::Deleted => DiffRequest::Stored(e.path),
                    EntryKind::Untracked => DiffRequest::Current(e.path),
                    EntryKind::Modified => DiffRequest::StoredAndCurrent(e.path),
                },
            },
            Pane::Log => if self.log_idx < self.log.len() {
                DiffRequest::Object(self.log[self.log_idx].hash.clone())
            } else {
                DiffRequest::Nothing
            },
            Pane::Tree => if self.tree_idx < self.tree.len() {
                DiffRequest::Blob(self.tree[self.tree_idx].hash.clone())
            } else {
                DiffRequest::Nothing
            },
        }
    }

    /// Fills the Diff pane from what was read for `diff_request`, and
    /// scrolls it to the top.
    pub fn update_diff(&mut self, content: &DiffContent)
        ensures
            final(self)@ == old(self)@.diff_updated(content@),
    {
        let lines = match self.pane {
            Pane::Files => match self.selected_entry() {
                None => Vec::new(),
                Some(e) => match e.kind {
                    EntryKind::Deleted => deleted_file_diff(e.path.as_str(), content.stored.as_slice()),
                    EntryKind::Untracked => untracked_file_diff(e.path.as_str(), content.current.as_str()),
                    EntryKind::Modified => modified_file_diff(
                        e.path.as_str(),
                        content.stored.as_slice(),
                        content.current.as_str(),
                    ),
                },
            },
            Pane::Log => if self.log_idx < self.log.len() {
                match &content.object {
                    None => Vec::new(),
                    Some(bytes) => commit_diff(self.log[self.log_idx].hash.as_str(), bytes.as_slice()),
                }
            } else {
                Vec::new()
            },
            Pane::Tree => if self.tree_idx < self.tree.len() {
                match &content.object {
                    None => Vec::new(),
                    Some(bytes) => blob_diff(self.tree[self.tree_idx].name.as_str(), bytes.as_slice()),
                }
            } else {
                Vec::new()
            },
        };
        self.diff_scroll = 0;
        self.diff = lines;
        assert(self@.diff =~= old(self)@.diff_for(content@));
    }

    /// Replaces the file lists with what was freshly read: `index` holds
    /// what was read for each index entry, `untracked` the paths a walk of
    /// the working tree reported. The selections are brought back into their
    /// lists.
    pub fn load_files(&mut self, index: Vec<IndexFileState>, untracked: Vec<String>)
        ensures
            final(self)@ == old(self)@.files_loaded(index.deep_view(), untracked.deep_view()),
    {
        let unstaged = unstaged_of(&index);
        let untracked_list = untracked_of(untracked);
        self.unstaged_idx = clamp_index(self.unstaged_idx, unstaged.len());
        self.untracked_idx = clamp_index(self.untracked_idx, untracked_list.len());
        self.unstaged = unstaged;
        self.untracked = untracked_list;
    }

    /// Replaces the files and the history with what was freshly read, as
    /// `load_files` does for the files. The Tree pane is emptied if the
    /// selected commit changed, and the Diff pane is emptied and scrolled to
    /// the top; the caller then reads what `tree_request` and `diff_request`
    /// name.
    pub fn refresh(&mut self, index: Vec<IndexFileState>, untracked: Vec<String>, log: Vec<CommitInfo>)
        ensures
            final(self)@ == old(self)@.refreshed(
                index.deep_view(),
                untracked.deep_view(),
                log.deep_view(),
            ),
    {
        self.load_files(index, untracked);
        self.log = log;
        self.sync_tree();
        self.clear_diff();
    }

    /// Reports that the file at `path` was added to the index.
    pub fn note_staged(&mut self, path: &str)
        ensures
            final(self)@ == (AppView { status: Some("added: "@ + path@), ..old(self)@ }),
    {
        self.status = Some(joined("added: ", path));
    }

    /// Decides what a commit of the index `index` writes: the tree entries
    /// of all indexed files. An empty index is not committed: that is
    /// reported in the status bar, the message input closes and `None`
    /// comes back.
    pub fn plan_commit(&mut self, index: &Vec<IndexEntry>) -> (items: Option<Vec<TreeItem>>)
        ensures
            index.len() == 0 ==> items is None && final(self)@ == (AppView {
                status: Some("nothing to commit"@),
                mode: Mode::Normal,
                ..old(self)@
            }),
            index.len() > 0 ==> final(self)@ == old(self)@ && items is Some,
            items matches Some(t) ==> t.len() == index.len() && forall|i: int|
                0 <= i < index.len() ==> #[trigger] t.deep_view()[i] == (TreeItemView {
                    mode: file_mode(),
                    name: index.deep_view()[i].path,
                    hash: index.deep_view()[i].hash,
                }),
    {
        if index.len() == 0 {
            self.status = Some(owned("nothing to commit"));
            self.mode = Mode::Normal;
            None
        } else {
            Some(commit_tree_items(index))
        }
    }

    /// Reports the commit `commit_hash` made with the typed message, clears
    /// the message and closes the message input.
    pub fn note_committed(&mut self, commit_hash: &str)
        requires
            is_char_boundary(commit_hash.spec_bytes(), 7),
        ensures
            final(self)@ == (AppView {
                status: Some(
                    "["@ + hash_prefix(commit_hash@) + "] "@ + old(self).commit_msg@,
                ),
                commit_msg: seq![],
                mode: Mode::Normal,
                ..old(self)@
            }),
    {
        let short = prefix_bytes(commit_hash, 7);
        let mut s = owned("[");
        s.append(short.as_str());
        s.append("] ");
        s.append(self.commit_msg.as_str());
        self.status = Some(s);
        self.commit_msg = String::new();
        self.mode = Mode::Normal;
    }
}

/// The unstaged entries for what was read of the index.
fn unstaged_of(index: &Vec<IndexFileState>) -> (entries: Vec<FileEntry>)
    ensures
        entries.deep_view() == unstaged_entries(index.deep_view()),
{
    let mut entries: Vec<FileEntry> = Vec::new();
    let mut i: usize = 0;
    while i < index.len()
        invariant
            i <= index.len(),
            entries.deep_view() == unstaged_entries(index.deep_view().take(i as int)),
        decreases index.len() - i,
    {
        let e = &index[i];
        let ghost before = entries.deep_view();
        proof {
            assert(index.deep_view().take(i + 1).drop_last() =~= index.deep_view().take(i as int));
            assert(index.deep_view().take(i + 1).last() == e@);
        }
        if !e.present {
            entries.push(FileEntry { path: e.path.clone(), kind: EntryKind::Deleted });
            assert(entries.deep_view() =~= before.push(FileEntryView { path: e.path@, kind: EntryKind::Deleted }));
        } else {
            let stored = text_from_bytes(e.stored.as_slice());
            if e.current != stored {
                entries.push(FileEntry { path: e.path.clone(), kind: EntryKind::Modified });
                assert(entries.deep_view() =~= before.push(FileEntryView { path: e.path@, kind: EntryKind::Modified }));
            }
        }
        i = i + 1;
    }
    assert(index.deep_view().take(index.len() as int) =~= index.deep_view());
    entries
}

/// Untracked entries for the reported paths, in order.
fn untracked_of(paths: Vec<String>) -> (entries: Vec<FileEntry>)
    ensures
        entries.deep_view() == untracked_entries(paths.deep_view()),
{
    let mut entries: Vec<FileEntry> = Vec::new();
    let mut i: usize = 0;
    while i < paths.len()
        invariant
            i <= paths.len(),
            entries.deep_view() == untracked_entries(paths.deep_view().take(i as int)),
        decreases paths.len() - i,
    {
        let ghost before = entries.deep_view();
        let e = FileEntry { path: paths[i].clone(), kind: EntryKind::Untracked };
        entries.push(e);
        assert(entries.deep_view() =~= before.push(e@));
        assert(paths.deep_view().take(i + 1) =~= paths.deep_view().take(i as int).push(paths.deep_view()[i as int]));
        assert(untracked_entries(paths.deep_view().take(i + 1)) =~= untracked_entries(paths.deep_view().take(i as int)).push(e@));
        i = i + 1;
    }
    assert(paths.deep_view().take(paths.len() as int) =~= paths.deep_view());
    entries
}

} // verus!
