use lazyisi::{decimal_string, parse_commit, split_lines, LogWalk, LOG_LIMIT};

fn lines(s: &str) -> Vec<String> {
    split_lines(s)
}

#[test]
fn split_lines_matches_str_lines() {
    let cases = [
        "",
        "a",
        "a\n",
        "a\r\nb",
        "\n",
        "a\n\nb",
        "a\r",
        "x\r\r\ny\n\n",
        "héllo\nwörld",
    ];
    for c in cases {
        let expected: Vec<String> = c.lines().map(|l| l.to_string()).collect();
        assert_eq!(lines(c), expected, "case {:?}", c);
    }
}

#[test]
fn split_lines_exact_values() {
    assert_eq!(lines("a\r\nb\n"), vec!["a".to_string(), "b".to_string()]);
    assert_eq!(lines("\n\n"), vec!["".to_string(), "".to_string()]);
    assert!(lines("").is_empty());
    assert_eq!(lines("a\rb"), vec!["a\rb".to_string()]);
}

#[test]
fn decimal_string_values() {
    assert_eq!(decimal_string(0), "0");
    assert_eq!(decimal_string(7), "7");
    assert_eq!(decimal_string(42), "42");
    assert_eq!(decimal_string(1000), "1000");
    assert_eq!(decimal_string(usize::MAX), usize::MAX.to_string());
}

#[test]
fn parse_commit_with_parent() {
    let text = "tree abc\nparent 1234567890\nauthor me\n\nfix the bug\nmore detail\n";
    let (message, parent) = parse_commit(text);
    assert_eq!(message, "fix the bug");
    assert_eq!(parent, Some("1234567890".to_string()));
}

#[test]
fn parse_commit_without_parent_or_message() {
    let (message, parent) = parse_commit("tree abc\nauthor me\n");
    assert_eq!(message, "");
    assert_eq!(parent, None);
    let (message, parent) = parse_commit("tree abc\n\n");
    assert_eq!(message, "");
    assert_eq!(parent, None);
}

#[test]
fn parse_commit_takes_first_parent_line_and_line_after_first_blank() {
    let text = "tree t\nparent p1\nparent p2\n\n\nsecond\n";
    let (message, parent) = parse_commit(text);
    // The line right after the first empty line is itself empty.
    assert_eq!(message, "");
    assert_eq!(parent, Some("p1".to_string()));
    let (_, parent) = parse_commit("tree t\nparentx\nparent \n");
    assert_eq!(parent, Some("".to_string()));
}

fn commit_object(parent: Option<&str>, message: &str) -> Vec<u8> {
    let mut s = String::from("tree 00\n");
    if let Some(p) = parent {
        s.push_str(&format!("parent {}\n", p));
    }
    s.push_str("author a\n\n");
    s.push_str(message);
    s.push('\n');
    s.into_bytes()
}

#[test]
fn log_walk_follows_parents() {
    let mut walk = LogWalk::start(Some("c3".to_string()));
    assert_eq!(walk.pending(), Some("c3".to_string()));
    walk.feed(Some(commit_object(Some("c2"), "third")));
    assert_eq!(walk.pending(), Some("c2".to_string()));
    walk.feed(Some(commit_object(Some("c1"), "second")));
    walk.feed(Some(commit_object(None, "first")));
    assert_eq!(walk.pending(), None);
    let log = walk.into_log();
    let hashes: Vec<&str> = log.iter().map(|c| c.hash.as_str()).collect();
    let messages: Vec<&str> = log.iter().map(|c| c.message.as_str()).collect();
    assert_eq!(hashes, vec!["c3", "c2", "c1"]);
    assert_eq!(messages, vec!["third", "second", "first"]);
}

#[test]
fn log_walk_stops_on_unreadable_object() {
    let mut walk = LogWalk::start(Some("c2".to_string()));
    walk.feed(Some(commit_object(Some("c1"), "two")));
    walk.feed(None);
    assert_eq!(walk.pending(), None);
    let log = walk.into_log();
    assert_eq!(log.len(), 1);
    assert_eq!(log[0].hash, "c2");
}

#[test]
fn log_walk_without_head_is_empty() {
    let mut walk = LogWalk::start(None);
    assert_eq!(walk.pending(), None);
    walk.feed(Some(commit_object(None, "ignored")));
    assert!(walk.into_log().is_empty());
}

#[test]
fn log_walk_holds_at_most_the_limit() {
    let mut walk = LogWalk::start(Some("h0".to_string()));
    let mut n = 0;
    while let Some(h) = walk.pending() {
        let next = format!("h{}", n + 1);
        assert_eq!(h, format!("h{}", n));
        walk.feed(Some(commit_object(Some(&next), "m")));
        n += 1;
        assert!(n <= 1000);
    }
    assert_eq!(LOG_LIMIT, 100);
    let log = walk.into_log();
    assert_eq!(log.len(), 100);
    assert_eq!(log[99].hash, "h99");
}

#[test]
fn commit_tree_hash_reads_tree_line() {
    assert_eq!(
        lazyisi::commit_tree_hash(b"tree abc123\nparent p\n\nmsg\n"),
        Some("abc123".to_string())
    );
    assert_eq!(lazyisi::commit_tree_hash(b"parent p\n\nmsg\n"), None);
    assert_eq!(lazyisi::commit_tree_hash(b"x\ntree \n"), Some("".to_string()));
}
