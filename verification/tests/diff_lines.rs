use lazyisi::{commit_diff, deleted_file_diff, modified_file_diff, untracked_file_diff, DiffLine};

fn show(lines: &[DiffLine]) -> Vec<String> {
    lines
        .iter()
        .map(|l| match l {
            DiffLine::Header(s) => format!("H:{}", s),
            DiffLine::Added(s) => format!("+:{}", s),
            DiffLine::Removed(s) => format!("-:{}", s),
            DiffLine::Context(s) => format!(" :{}", s),
        })
        .collect()
}

#[test]
fn modified_file_diff_exact() {
    let d = modified_file_diff("src/a.rs", b"a\nb\n", "a\nc\n");
    assert_eq!(
        show(&d),
        vec!["H:--- src/a.rs", "H:+++ working tree", " :a", "-:b", "+:c", " :"]
    );
}

#[test]
fn modified_file_diff_readme_example() {
    let d = modified_file_diff("f", b"foo\nbar\nbaz\nquux", "foo\nbaz\nbar\nquux");
    assert_eq!(
        show(&d),
        vec!["H:--- f", "H:+++ working tree", " :foo", "-:bar", " :baz", "+:bar", " :quux"]
    );
}

#[test]
fn modified_file_diff_covers_both_texts() {
    let stored = "one\ntwo\nthree\nfour\n";
    let current = "zero\none\nthree\nfive\nfour";
    let d = modified_file_diff("p", stored.as_bytes(), current);
    let mut old = Vec::new();
    let mut new = Vec::new();
    for l in &d {
        match l {
            DiffLine::Removed(s) => old.push(s.clone()),
            DiffLine::Added(s) => new.push(s.clone()),
            DiffLine::Context(s) => {
                old.push(s.clone());
                new.push(s.clone());
            }
            DiffLine::Header(_) => {}
        }
    }
    let mut expected_old: Vec<String> = stored.lines().map(String::from).collect();
    expected_old.push(String::new());
    let expected_new: Vec<String> = current.lines().map(String::from).collect();
    assert_eq!(old, expected_old);
    assert_eq!(new, expected_new);
}

#[test]
fn deleted_file_diff_lists_stored_lines_removed() {
    let d = deleted_file_diff("gone.txt", b"x\ny\n");
    assert_eq!(show(&d), vec!["H:deleted: gone.txt", "-:x", "-:y"]);
}

#[test]
fn deleted_file_diff_replaces_invalid_bytes() {
    let d = deleted_file_diff("bin", &[b'a', 0xff, b'\n', b'b']);
    assert_eq!(show(&d), vec!["H:deleted: bin", "-:a\u{FFFD}", "-:b"]);
}

#[test]
fn untracked_file_diff_lists_lines_added() {
    let d = untracked_file_diff("new.txt", "hello\r\nworld");
    assert_eq!(show(&d), vec!["H:untracked: new.txt", "+:hello", "+:world"]);
    let e = untracked_file_diff("empty", "");
    assert_eq!(show(&e), vec!["H:untracked: empty"]);
}

#[test]
fn commit_diff_shows_object_as_context() {
    let d = commit_diff("abc123", b"tree t\nparent p\n\nmsg\n");
    assert_eq!(
        show(&d),
        vec!["H:commit abc123", " :tree t", " :parent p", " :", " :msg"]
    );
}

#[test]
fn modified_file_diff_keeps_a_longest_common_subsequence() {
    // Lines a b c d e against b x d e a: a longest common subsequence is b d e.
    let d = modified_file_diff("p", b"a\nb\nc\nd\ne", "b\nx\nd\ne\na");
    let kept = d.iter().filter(|l| matches!(l, DiffLine::Context(_))).count();
    assert_eq!(kept, 3);
    // Both texts end with a line feed: the final empty line is kept too.
    let d = modified_file_diff("p", b"a\nb\n", "b\nc\n");
    let kept = d.iter().filter(|l| matches!(l, DiffLine::Context(_))).count();
    assert_eq!(kept, 2);
}
