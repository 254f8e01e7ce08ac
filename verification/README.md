# lazyisi

A terminal front end for an `isi` repository, in the manner of lazygit: a
Files pane (unstaged and untracked files), a Log pane (commits, newest
first), a Tree pane (the files of the commit selected in the Log pane) and a
Diff pane, driven by the keyboard. Tab moves the focus from Files to Log to
Tree and back.

The library under `src/` holds the state of the front end and every rule
that decides what it shows and does, verified with Verus:

- `state.rs`: the state (`App`), what each key does (`App::handle_key`
  returns the state change and the repository work to run), how freshly
  read files and history replace the old ones (`App::refresh`), what has to
  be read for the Tree and Diff panes and how they are filled
  (`App::tree_request`, `App::load_tree`, `App::diff_request`,
  `App::update_diff`), and the decisions of the working tree walk and of a
  commit.
- `diff_pane.rs`: the lines of the Diff pane for deleted, untracked and
  modified files (the last through the `diff` crate), for commits and for
  files of a past commit.
- `log.rs`: commit objects (message, parent and tree) and the walk of the history
  from the head commit (`LogWalk`).
- `panes.rs`: the rows of the Files, Log, Tree and Diff panes and the
  status bar.
- `text.rs`: line splitting, decimal numbers and string building.
- `laws.rs`: properties across operations.

`app/` is the program around it: it reads the repository through `isi`,
reads keys through crossterm, and draws with ratatui.
