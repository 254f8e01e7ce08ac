use lazyisi::{
    App, CommitInfo, DiffLine, DiffTone, EntryKind, FileRow, IndexFileState, Key, LogRow, TreeItem,
    TreeRow,
};

fn loaded() -> App {
    let mut app = App::new();
    let index = vec![
        IndexFileState { path: "m.rs".into(), present: true, current: "1".into(), stored: b"2".to_vec() },
        IndexFileState { path: "d.rs".into(), present: false, current: String::new(), stored: vec![] },
    ];
    let log = vec![
        CommitInfo { hash: "0123456789abcdef".into(), message: "top".into() },
        CommitInfo { hash: "abc".into(), message: "root".into() },
    ];
    app.refresh(index, vec!["new.txt".into()], log);
    app
}

fn describe(rows: &[FileRow]) -> Vec<String> {
    rows.iter()
        .map(|r| match r {
            FileRow::Header { label, .. } => format!("[{}]", label),
            FileRow::Entry { marker, tone, path, selected } => {
                format!("{}{}|{:?}|{}", marker, path, tone, if *selected { "*" } else { "" })
            }
            FileRow::Placeholder(s) => format!("({})", s),
        })
        .collect()
}

#[test]
fn file_rows_and_selection() {
    let mut app = loaded();
    let (rows, sel) = app.file_list();
    assert_eq!(
        describe(&rows),
        vec![
            "[ Unstaged (2) ]",
            "  M m.rs|Modified|*",
            "  D d.rs|Deleted|",
            "[ Untracked (1) ]",
            "  ? new.txt|Untracked|",
        ]
    );
    assert_eq!(sel, Some(1));
    app.handle_key(Key::Down);
    app.handle_key(Key::Down);
    let (rows, sel) = app.file_list();
    assert_eq!(sel, Some(4));
    assert!(matches!(&rows[4], FileRow::Entry { selected: true, tone: EntryKind::Untracked, .. }));
    app.handle_key(Key::Tab);
    let (_, sel) = app.file_list();
    assert_eq!(sel, None);
}

#[test]
fn file_rows_placeholder() {
    let app = App::new();
    let (rows, sel) = app.file_list();
    assert_eq!(describe(&rows), vec!["(  nothing to show)"]);
    assert_eq!(sel, None);
}

#[test]
fn file_rows_only_untracked() {
    let mut app = App::new();
    app.refresh(vec![], vec!["a".into(), "b".into()], vec![]);
    app.handle_key(Key::Down);
    assert_eq!(app.file_section, lazyisi::FileSection::Untracked);
    assert_eq!(app.untracked_idx, 0);
    app.handle_key(Key::Down);
    assert_eq!(app.untracked_idx, 1);
    let (rows, sel) = app.file_list();
    assert_eq!(describe(&rows), vec!["[ Untracked (2) ]", "  ? a|Untracked|", "  ? b|Untracked|*"]);
    assert_eq!(sel, Some(2));
}

#[test]
fn log_rows_and_selection() {
    let mut app = loaded();
    let (rows, sel) = app.log_list();
    assert_eq!(sel, None);
    match &rows[0] {
        LogRow::Commit { hash_label, message, selected } => {
            assert_eq!(hash_label, " 0123456 ");
            assert_eq!(message, "top");
            assert!(!*selected);
        }
        _ => panic!("expected a commit row"),
    }
    match &rows[1] {
        LogRow::Commit { hash_label, .. } => assert_eq!(hash_label, " abc "),
        _ => panic!("expected a commit row"),
    }
    app.handle_key(Key::Tab);
    app.handle_key(Key::Down);
    let (rows, sel) = app.log_list();
    assert_eq!(sel, Some(1));
    assert!(matches!(&rows[1], LogRow::Commit { selected: true, .. }));
    let (rows, _) = App::new().log_list();
    assert!(matches!(&rows[0], LogRow::Placeholder(s) if s == "  no commits yet"));
}

#[test]
fn diff_rows_skip_scrolled_lines() {
    let mut app = App::new();
    app.diff = vec![
        DiffLine::Header("h".into()),
        DiffLine::Added("a".into()),
        DiffLine::Removed("r".into()),
        DiffLine::Context("c".into()),
    ];
    let rows = app.diff_view();
    let shown: Vec<(DiffTone, String)> = rows.into_iter().map(|r| (r.tone, r.text)).collect();
    assert_eq!(
        shown,
        vec![
            (DiffTone::Header, "h".to_string()),
            (DiffTone::Added, "+ a".to_string()),
            (DiffTone::Removed, "- r".to_string()),
            (DiffTone::Context, "  c".to_string()),
        ]
    );
    app.diff_scroll = 3;
    assert_eq!(app.diff_view().len(), 1);
    app.diff_scroll = 10;
    assert!(app.diff_view().is_empty());
}

#[test]
fn status_bar_text() {
    let mut app = App::new();
    let help = " q:quit  a:add  c:commit  Tab:switch pane  ↑↓/jk:navigate  JK:scroll diff";
    assert_eq!(app.status_text(), help);
    app.note_staged("x");
    assert_eq!(app.status_text(), format!("{}  │  added: x", help));
}

#[test]
fn log_rows_cut_hashes_by_bytes() {
    let mut app = App::new();
    app.refresh(vec![], vec![], vec![CommitInfo { hash: "aéééxyz".into(), message: "m".into() }]);
    let (rows, _) = app.log_list();
    assert!(matches!(&rows[0], LogRow::Commit { hash_label, .. } if hash_label == " aééé "));
}

#[test]
fn tree_rows_and_title() {
    let mut app = loaded();
    assert_eq!(app.tree_title(), " Tree ");
    let (rows, sel) = app.tree_list();
    assert!(matches!(&rows[0], TreeRow::Placeholder(s) if s == "  nothing to show"));
    assert_eq!(sel, None);
    app.load_tree(
        "0123456789abcdef".into(),
        vec![
            TreeItem { mode: "100644".into(), name: "main.rs".into(), hash: "b1".into() },
            TreeItem { mode: "40000".into(), name: "src".into(), hash: "t1".into() },
        ],
    );
    assert_eq!(app.tree_title(), " Tree @ 0123456 ");
    app.handle_key(Key::Tab);
    app.handle_key(Key::Tab);
    let (rows, sel) = app.tree_list();
    assert_eq!(sel, Some(0));
    let labels: Vec<(String, bool)> = rows
        .into_iter()
        .map(|r| match r {
            TreeRow::File { label, selected } => (label, selected),
            TreeRow::Placeholder(s) => (s, false),
        })
        .collect();
    assert_eq!(labels, vec![("blob main.rs".to_string(), true), ("40000 src".to_string(), false)]);
}
