use lazyisi::{
    find_stored_hash, names_repository_dir, tracked_paths, walk_decision, Action, App, CommitInfo, DiffContent,
    DiffLine, DiffRequest, EntryKind, FileSection, IndexEntry, IndexFileState, Key, Mode, Pane,
    TreeItem, WalkStep,
};

fn state(path: &str, present: bool, current: &str, stored: &str) -> IndexFileState {
    IndexFileState {
        path: path.to_string(),
        present,
        current: current.to_string(),
        stored: stored.as_bytes().to_vec(),
    }
}

fn commit(hash: &str, message: &str) -> CommitInfo {
    CommitInfo { hash: hash.to_string(), message: message.to_string() }
}

fn loaded() -> App {
    let mut app = App::new();
    let index = vec![
        state("a.txt", true, "same", "same"),
        state("b.txt", true, "new text", "old text"),
        state("c.txt", false, "", "gone"),
    ];
    app.refresh(
        index,
        vec!["u1".to_string(), "u2".to_string()],
        vec![commit("1111111aaaa", "second"), commit("2222222bbbb", "first")],
    );
    app
}

fn paths(entries: &[lazyisi::FileEntry]) -> Vec<(String, EntryKind)> {
    entries.iter().map(|e| (e.path.clone(), e.kind)).collect()
}

#[test]
fn new_app_is_empty() {
    let app = App::new();
    assert_eq!(app.pane, Pane::Files);
    assert_eq!(app.file_section, FileSection::Unstaged);
    assert_eq!(app.mode, Mode::Normal);
    assert!(app.unstaged.is_empty() && app.untracked.is_empty() && app.log.is_empty());
    assert!(app.status.is_none());
    assert!(matches!(app.diff_request(), DiffRequest::Nothing));
}

#[test]
fn refresh_lists_changed_and_deleted_files() {
    let app = loaded();
    assert_eq!(
        paths(&app.unstaged),
        vec![
            ("b.txt".to_string(), EntryKind::Modified),
            ("c.txt".to_string(), EntryKind::Deleted)
        ]
    );
    assert_eq!(
        paths(&app.untracked),
        vec![
            ("u1".to_string(), EntryKind::Untracked),
            ("u2".to_string(), EntryKind::Untracked)
        ]
    );
    assert_eq!(app.log.len(), 2);
}

#[test]
fn refresh_compares_with_lossy_stored_text() {
    let mut app = App::new();
    let index = vec![IndexFileState {
        path: "x".to_string(),
        present: true,
        current: "a\u{FFFD}".to_string(),
        stored: vec![b'a', 0xff],
    }];
    app.refresh(index, vec![], vec![]);
    assert!(app.unstaged.is_empty());
}

#[test]
fn refresh_clamps_selection() {
    let mut app = loaded();
    app.unstaged_idx = 5;
    app.untracked_idx = 7;
    app.refresh(vec![state("z", false, "", "")], vec![], vec![]);
    assert_eq!(app.unstaged_idx, 0);
    assert_eq!(app.untracked_idx, 0);
    let mut app = loaded();
    app.unstaged_idx = 9;
    app.refresh(
        vec![state("p", false, "", ""), state("q", false, "", ""), state("r", false, "", "")],
        vec![],
        vec![],
    );
    assert_eq!(app.unstaged_idx, 2);
}

#[test]
fn refresh_returns_diff_request_for_selection() {
    let mut app = App::new();
    app.refresh(vec![state("b.txt", true, "x", "y")], vec![], vec![]);
    assert!(matches!(app.diff_request(), DiffRequest::StoredAndCurrent(p) if p == "b.txt"));
}

#[test]
fn navigation_crosses_sections() {
    let mut app = loaded();
    assert_eq!(app.handle_key_action(Key::Down), "reload");
    assert_eq!((app.file_section, app.unstaged_idx), (FileSection::Unstaged, 1));
    app.handle_key(Key::Char('j'));
    assert_eq!((app.file_section, app.untracked_idx), (FileSection::Untracked, 0));
    app.handle_key(Key::Down);
    assert_eq!(app.untracked_idx, 1);
    app.handle_key(Key::Down);
    assert_eq!(app.untracked_idx, 1);
    app.handle_key(Key::Up);
    app.handle_key(Key::Char('k'));
    assert_eq!((app.file_section, app.unstaged_idx), (FileSection::Unstaged, 1));
    app.handle_key(Key::Up);
    app.handle_key(Key::Up);
    assert_eq!((app.file_section, app.unstaged_idx), (FileSection::Unstaged, 0));
}

trait ActionName {
    fn handle_key_action(&mut self, key: Key) -> &'static str;
}

impl ActionName for App {
    fn handle_key_action(&mut self, key: Key) -> &'static str {
        match self.handle_key(key) {
            Action::Continue => "continue",
            Action::Quit => "quit",
            Action::ReloadDiff => "reload",
            Action::Stage(_) => "stage",
            Action::Refresh => "refresh",
            Action::Commit => "commit",
        }
    }
}

#[test]
fn log_navigation_and_tab() {
    let mut app = loaded();
    assert_eq!(app.handle_key_action(Key::Tab), "reload");
    assert_eq!(app.pane, Pane::Log);
    app.handle_key(Key::Up);
    assert_eq!(app.log_idx, 0);
    app.handle_key(Key::Down);
    app.handle_key(Key::Down);
    assert_eq!(app.log_idx, 1);
    assert!(matches!(app.diff_request(), DiffRequest::Object(h) if h == "2222222bbbb"));
    app.handle_key(Key::Tab);
    assert_eq!(app.pane, Pane::Tree);
    app.handle_key(Key::Tab);
    assert_eq!(app.pane, Pane::Files);
}

#[test]
fn quit_only_in_normal_mode() {
    let mut app = loaded();
    assert_eq!(app.handle_key_action(Key::Char('c')), "continue");
    assert_eq!(app.mode, Mode::CommitInput);
    assert_eq!(app.handle_key_action(Key::Char('q')), "continue");
    assert_eq!(app.commit_msg, "q");
    app.handle_key(Key::Esc);
    assert_eq!(app.mode, Mode::Normal);
    assert_eq!(app.commit_msg, "q");
    assert_eq!(app.handle_key_action(Key::Char('q')), "quit");
}

#[test]
fn commit_input_typing() {
    let mut app = loaded();
    app.status = Some("old".to_string());
    app.handle_key(Key::Char('c'));
    assert!(app.status.is_none());
    assert_eq!(app.commit_msg, "");
    assert_eq!(app.handle_key_action(Key::Enter), "continue");
    assert_eq!(app.mode, Mode::Normal);
    app.handle_key(Key::Char('c'));
    for c in "fix".chars() {
        app.handle_key(Key::Char(c));
    }
    app.handle_key(Key::Char('é'));
    app.handle_key(Key::Backspace);
    assert_eq!(app.commit_msg, "fix");
    app.handle_key(Key::Tab);
    assert_eq!(app.pane, Pane::Files);
    assert_eq!(app.handle_key_action(Key::Enter), "commit");
    // The input stays open until the commit is made or found empty.
    assert_eq!(app.mode, Mode::CommitInput);
    assert_eq!(app.commit_msg, "fix");
    assert!(app.plan_commit(&vec![]).is_none());
    assert_eq!(app.mode, Mode::Normal);
    assert_eq!(app.commit_msg, "fix");
    app.handle_key(Key::Char('c'));
    app.handle_key(Key::Char('m'));
    app.handle_key(Key::Enter);
    let index = vec![IndexEntry { path: "a".to_string(), hash: "h".to_string() }];
    assert!(app.plan_commit(&index).is_some());
    assert_eq!(app.mode, Mode::CommitInput);
    app.note_committed("0123456789");
    assert_eq!(app.mode, Mode::Normal);
    assert_eq!(app.commit_msg, "");
}

#[test]
fn backspace_on_empty_message() {
    let mut app = App::new();
    app.handle_key(Key::Char('c'));
    app.handle_key(Key::Backspace);
    assert_eq!(app.commit_msg, "");
}

#[test]
fn stage_selected_file() {
    let mut app = loaded();
    match app.handle_key(Key::Char('a')) {
        Action::Stage(e) => {
            assert_eq!(e.path, "b.txt");
            assert_eq!(e.kind, EntryKind::Modified);
        }
        other => panic!("unexpected {:?}", other),
    }
    app.handle_key(Key::Down);
    assert_eq!(app.handle_key_action(Key::Char('a')), "refresh");
    let mut empty = App::new();
    assert_eq!(empty.handle_key_action(Key::Char('a')), "continue");
}

#[test]
fn scroll_keys_saturate() {
    let mut app = App::new();
    app.handle_key(Key::Char('K'));
    assert_eq!(app.diff_scroll, 0);
    app.handle_key(Key::Char('J'));
    app.handle_key(Key::Char('J'));
    assert_eq!(app.diff_scroll, 6);
    app.handle_key(Key::Char('K'));
    assert_eq!(app.diff_scroll, 3);
    app.diff_scroll = usize::MAX - 1;
    app.handle_key(Key::Char('J'));
    assert_eq!(app.diff_scroll, usize::MAX);
}

#[test]
fn tab_cycles_three_panes() {
    let mut app = loaded();
    app.diff_scroll = 6;
    app.handle_key(Key::Tab);
    assert_eq!(app.pane, Pane::Log);
    assert_eq!(app.diff_scroll, 0);
    app.handle_key(Key::Tab);
    assert_eq!(app.pane, Pane::Tree);
    app.handle_key(Key::Tab);
    assert_eq!(app.pane, Pane::Files);
}

#[test]
fn navigation_and_refresh_reset_the_diff() {
    let mut app = loaded();
    app.diff = vec![DiffLine::Context("x".to_string())];
    app.diff_scroll = 3;
    app.navigate(1);
    assert!(app.diff.is_empty());
    assert_eq!(app.diff_scroll, 0);
    app.diff = vec![DiffLine::Context("x".to_string())];
    app.diff_scroll = 3;
    app.handle_key(Key::Down);
    assert!(app.diff.is_empty() && app.diff_scroll == 0);
    app.diff_scroll = 4;
    app.refresh(vec![], vec![], vec![]);
    assert!(app.diff.is_empty() && app.diff_scroll == 0);
}

#[test]
fn tree_pane_follows_selected_commit() {
    let mut app = loaded();
    assert_eq!(app.tree_request(), Some("1111111aaaa".to_string()));
    app.load_tree(
        "1111111aaaa".to_string(),
        vec![
            TreeItem { mode: "100644".into(), name: "main.rs".into(), hash: "b1".into() },
            TreeItem { mode: "100644".into(), name: "lib.rs".into(), hash: "b2".into() },
        ],
    );
    assert_eq!(app.tree_request(), None);
    app.handle_key(Key::Tab);
    app.handle_key(Key::Tab);
    assert_eq!(app.pane, Pane::Tree);
    assert!(matches!(app.diff_request(), DiffRequest::Blob(h) if h == "b1"));
    app.handle_key(Key::Down);
    assert_eq!(app.tree_idx, 1);
    app.handle_key(Key::Down);
    assert_eq!(app.tree_idx, 1);
    assert!(matches!(app.diff_request(), DiffRequest::Blob(h) if h == "b2"));
    let content = DiffContent { stored: vec![], current: String::new(), object: Some(b"pub fn f() {}\n".to_vec()) };
    app.update_diff(&content);
    assert_eq!(app.diff.len(), 2);
    assert!(matches!(&app.diff[0], DiffLine::Header(s) if s == "lib.rs"));
    assert!(matches!(&app.diff[1], DiffLine::Context(s) if s == "pub fn f() {}"));
    app.handle_key(Key::Up);
    assert_eq!(app.tree_idx, 0);
    // Selecting another commit empties the tree until it is read again.
    app.handle_key(Key::Tab);
    app.handle_key(Key::Tab);
    assert_eq!(app.pane, Pane::Log);
    app.handle_key(Key::Down);
    assert!(app.tree.is_empty());
    assert_eq!(app.tree_commit, None);
    assert_eq!(app.tree_request(), Some("2222222bbbb".to_string()));
    // A refresh keeps the tree of the commit that stays selected.
    app.load_tree("2222222bbbb".to_string(), vec![]);
    app.refresh(vec![], vec![], vec![commit("1111111aaaa", "second"), commit("2222222bbbb", "first")]);
    assert_eq!(app.tree_commit, Some("2222222bbbb".to_string()));
    app.refresh(vec![], vec![], vec![]);
    assert_eq!(app.tree_commit, None);
    assert_eq!(app.tree_request(), None);
}

#[test]
fn update_diff_for_selection() {
    let mut app = loaded();
    app.diff_scroll = 4;
    let content = DiffContent { stored: b"old text".to_vec(), current: "new text".to_string(), object: None };
    app.update_diff(&content);
    assert_eq!(app.diff_scroll, 0);
    assert_eq!(app.diff.len(), 4);
    assert!(matches!(&app.diff[2], DiffLine::Removed(s) if s == "old text"));
    assert!(matches!(&app.diff[3], DiffLine::Added(s) if s == "new text"));

    app.handle_key(Key::Tab);
    let content = DiffContent { stored: vec![], current: String::new(), object: Some(b"tree t\n".to_vec()) };
    app.update_diff(&content);
    assert_eq!(app.diff.len(), 2);
    assert!(matches!(&app.diff[0], DiffLine::Header(s) if s == "commit 1111111aaaa"));
    let none = DiffContent { stored: vec![], current: String::new(), object: None };
    app.update_diff(&none);
    assert!(app.diff.is_empty());
}

#[test]
fn diff_request_by_kind() {
    let mut app = loaded();
    assert!(matches!(app.diff_request(), DiffRequest::StoredAndCurrent(p) if p == "b.txt"));
    app.handle_key(Key::Down);
    assert!(matches!(app.diff_request(), DiffRequest::Stored(p) if p == "c.txt"));
    app.handle_key(Key::Down);
    assert!(matches!(app.diff_request(), DiffRequest::Current(p) if p == "u1"));
}

#[test]
fn status_notes() {
    let mut app = loaded();
    app.note_staged("b.txt");
    assert_eq!(app.status.as_deref(), Some("added: b.txt"));
    assert!(app.plan_commit(&vec![]).is_none());
    assert_eq!(app.status.as_deref(), Some("nothing to commit"));
    app.commit_msg = "fix bug".to_string();
    let index = vec![IndexEntry { path: "a".to_string(), hash: "h1".to_string() }];
    let items = app.plan_commit(&index).expect("items");
    assert_eq!(items.len(), 1);
    assert_eq!((items[0].mode.as_str(), items[0].name.as_str(), items[0].hash.as_str()), ("100644", "a", "h1"));
    app.note_committed("abcdef0123456789");
    assert_eq!(app.status.as_deref(), Some("[abcdef0] fix bug"));
    assert_eq!(app.commit_msg, "");
    app.commit_msg = "m".to_string();
    app.note_committed("aéééxyz");
    assert_eq!(app.status.as_deref(), Some("[aééé] m"));
}

#[test]
fn walk_decisions() {
    let indexed = vec!["src/a.rs".to_string(), "b".to_string()];
    assert!(names_repository_dir(Some(".isi".to_string())));
    assert!(names_repository_dir(Some(".git".to_string())));
    assert!(!names_repository_dir(Some("src".to_string())));
    assert!(!names_repository_dir(None));
    assert_eq!(walk_decision("target", true, true, &indexed), WalkStep::Skip);
    assert_eq!(walk_decision("src", true, false, &indexed), WalkStep::Descend);
    assert_eq!(walk_decision("src/a.rs", false, false, &indexed), WalkStep::Skip);
    assert_eq!(walk_decision("src/c.rs", false, false, &indexed), WalkStep::Report);
    assert_eq!(walk_decision("b", false, true, &indexed), WalkStep::Skip);
}

#[test]
fn index_lookups() {
    let states = vec![state("x", true, "", ""), state("y", false, "", "")];
    assert_eq!(tracked_paths(&states), vec!["x".to_string(), "y".to_string()]);
    let index = vec![
        IndexEntry { path: "a".to_string(), hash: "h1".to_string() },
        IndexEntry { path: "a".to_string(), hash: "h2".to_string() },
    ];
    assert_eq!(find_stored_hash(&index, "a"), Some("h1".to_string()));
    assert_eq!(find_stored_hash(&index, "b"), None);
}
