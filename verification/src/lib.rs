//! State and rules of a terminal front end for an `isi` repository.

pub mod diff_pane;
pub mod laws;
pub mod log;
pub mod model;
pub mod panes;
pub mod state;
pub mod text;

pub use diff_pane::{blob_diff, commit_diff, deleted_file_diff, modified_file_diff, untracked_file_diff};
pub use log::{commit_tree_hash, parse_commit, LogWalk, LOG_LIMIT};
pub use model::{
    Action, CommitInfo, DiffLine, EntryKind, FileEntry, FileSection, IndexEntry, IndexFileState,
    Key, Mode, Pane, TreeItem,
};
pub use panes::{DiffRow, DiffTone, FileRow, LogRow, TreeRow};
pub use state::{
    find_stored_hash, names_repository_dir, tracked_paths, walk_decision, App, DiffContent, DiffRequest, WalkStep,
};
pub use text::{decimal_string, split_lines};
