//! Reading commit objects and walking the history from the head commit.

use vstd::prelude::*;
use crate::model::{CommitInfo, CommitInfoView};
use crate::text::{lossy_text, skip_chars, split_lines, starts_with, text_from_bytes, text_lines};

verus! {

broadcast use vstd::string::group_string_axioms;

/// The most commits the log holds.
pub const LOG_LIMIT: usize = 100;

/// Index of the first empty line, or `lines.len()` when there is none.
pub open spec fn first_empty_line(lines: Seq<Seq<char>>) -> nat
    decreases lines.len(),
{
    if lines.len() == 0 {
        0
    } else if lines[0].len() == 0 {
        0
    } else {
        1 + first_empty_line(lines.drop_first())
    }
}

/// The message of a commit object: the line right after the first empty
/// line, or an empty message when there is no such line.
pub open spec fn commit_message(text: Seq<char>) -> Seq<char> {
    let lines = text_lines(text);
    let k = first_empty_line(lines);
    if k + 1 < lines.len() {
        lines[k + 1 as int]
    } else {
        seq![]
    }
}

/// `line` begins with `prefix`.
pub open spec fn has_prefix(line: Seq<char>, prefix: Seq<char>) -> bool {
    prefix.len() <= line.len() && line.take(prefix.len() as int) == prefix
}

/// Index of the first line that begins with `prefix`, or `lines.len()`
/// when there is none.
pub open spec fn first_line_with(lines: Seq<Seq<char>>, prefix: Seq<char>) -> nat
    decreases lines.len(),
{
    if lines.len() == 0 {
        0
    } else if has_prefix(lines[0], prefix) {
        0
    } else {
        1 + first_line_with(lines.drop_first(), prefix)
    }
}

/// What follows `prefix` on the first line of `text` that begins with it,
/// if there is such a line.
pub open spec fn header_value(text: Seq<char>, prefix: Seq<char>) -> Option<Seq<char>> {
    let lines = text_lines(text);
    let k = first_line_with(lines, prefix);
    if k < lines.len() {
        Some(lines[k as int].skip(prefix.len() as int))
    } else {
        None
    }
}

/// The parent of a commit object: what follows `parent ` on its first
/// parent line, if it has one.
pub open spec fn commit_parent(text: Seq<char>) -> Option<Seq<char>> {
    header_value(text, "parent "@)
}

/// The tree of a commit object: what follows `tree ` on its first tree
/// line, if it has one.
pub open spec fn commit_tree(text: Seq<char>) -> Option<Seq<char>> {
    header_value(text, "tree "@)
}

pub(crate) proof fn lemma_first_empty_line(lines: Seq<Seq<char>>, k: int)
    requires
        0 <= k <= lines.len(),
        forall|j: int| 0 <= j < k ==> lines[j].len() != 0,
        k == lines.len() || lines[k].len() == 0,
    ensures
        first_empty_line(lines) == k,
    decreases k,
{
    if k > 0 {
        lemma_first_empty_line(lines.drop_first(), k - 1);
    }
}

pub(crate) proof fn lemma_first_line_with(lines: Seq<Seq<char>>, prefix: Seq<char>, k: int)
    requires
        0 <= k <= lines.len(),
        forall|j: int| 0 <= j < k ==> !has_prefix(#[trigger] lines[j], prefix),
        k == lines.len() || has_prefix(lines[k], prefix),
    ensures
        first_line_with(lines, prefix) == k,
    decreases k,
{
    if k > 0 {
        let rest = lines.drop_first();
        assert forall|j: int| 0 <= j < k - 1 implies !has_prefix(#[trigger] rest[j], prefix) by {
            assert(rest[j] == lines[j + 1]);
        }
        lemma_first_line_with(rest, prefix, k - 1);
    }
}

/// What follows `prefix` on the first of `lines` that begins with it.
fn find_header(lines: &Vec<String>, prefix: &str) -> (value: Option<String>)
    ensures
        value.deep_view() == ({
            let ls = lines.deep_view();
            let k = first_line_with(ls, prefix@);
            if k < ls.len() {
                Some(ls[k as int].skip(prefix@.len() as int))
            } else {
                None::<Seq<char>>
            }
        }),
{
    let ghost ls = lines.deep_view();
    let n = lines.len();
    let mut p: usize = 0;
    while p < n && !starts_with(lines[p].as_str(), prefix)
        invariant
            n == ls.len(),
            lines.deep_view() == ls,
            p <= n,
            forall|j: int| 0 <= j < p ==> !has_prefix(#[trigger] ls[j], prefix@),
        decreases n - p,
    {
        p = p + 1;
    }
    proof {
        if p < n {
            assert(lines[p as int]@ == ls[p as int]);
        }
        lemma_first_line_with(ls, prefix@, p as int);
    }
    if p < n {
        let plen = prefix.unicode_len();
        Some(skip_chars(lines[p].as_str(), plen))
    } else {
        None
    }
}

/// The tree named by the commit object `object`, if it names one.
pub fn commit_tree_hash(object: &[u8]) -> (tree: Option<String>)
    ensures
        tree.deep_view() == commit_tree(lossy_text(object@)),
{
    let text = text_from_bytes(object);
    let lines = split_lines(text.as_str());
    find_header(&lines, "tree ")
}

/// The message and the parent of the commit object `text`.
pub fn parse_commit(text: &str) -> (parsed: (String, Option<String>))
    ensures
        parsed.0@ == commit_message(text@),
        parsed.1.deep_view() == commit_parent(text@),
{
    let lines = split_lines(text);
    let ghost ls = text_lines(text@);
    assert(lines.deep_view() == ls);
    assert(forall|j: int| 0 <= j < lines.len() ==> #[trigger] lines[j]@ == ls[j]);
    let n = lines.len();

    let mut k: usize = 0;
    while k < n && !lines[k].as_str().is_empty()
        invariant
            n == ls.len(),
            lines.deep_view() == ls,
            k <= n,
            forall|j: int| 0 <= j < k ==> ls[j].len() != 0,
        decreases n - k,
    {
        k = k + 1;
    }
    proof {
        if k < n {
            assert(lines[k as int]@ == ls[k as int]);
            assert(lines[k as int]@.len() == 0);
        }
        lemma_first_empty_line(ls, k as int);
    }
    let message = if k < n && k + 1 < n {
        lines[k + 1].clone()
    } else {
        String::new()
    };

    let parent = find_header(&lines, "parent ");
    (message, parent)
}

/// Walks the history back from the head commit, one commit object at a time:
/// the caller reads the object of the hash that `pending` names and hands it
/// to `feed`, until `pending` names none.
pub struct LogWalk {
    commits: Vec<CommitInfo>,
    next: Option<String>,
    texts: Ghost<Seq<Seq<char>>>,
}

impl LogWalk {
    /// The commits gathered so far, newest first.
    pub closed spec fn commits(&self) -> Seq<CommitInfoView> {
        self.commits.deep_view()
    }

    /// The hash of the commit to read next, if the history goes on.
    pub closed spec fn next_hash(&self) -> Option<Seq<char>> {
        self.next.deep_view()
    }

    /// The texts of the commit objects read so far, in the order of
    /// `commits`.
    pub closed spec fn texts(&self) -> Seq<Seq<char>> {
        self.texts@
    }

    /// The hash still to be read: the next one, while the log is not full.
    pub open spec fn pending_hash(&self) -> Option<Seq<char>> {
        if self.commits().len() < LOG_LIMIT {
            self.next_hash()
        } else {
            None
        }
    }

    /// What holds of every walk: the log never holds more than `LOG_LIMIT`
    /// commits; each commit's message is that of its object; each commit
    /// but the last is the child of the one after it; and the hash to read
    /// next is the parent of the last commit read.
    pub open spec fn chained(&self) -> bool {
        &&& self.commits().len() <= LOG_LIMIT
        &&& self.texts().len() == self.commits().len()
        &&& forall|i: int|
            0 <= i < self.commits().len() ==> #[trigger] self.commits()[i].message
                == commit_message(self.texts()[i])
        &&& forall|i: int|
            0 <= i < self.commits().len() - 1 ==> commit_parent(#[trigger] self.texts()[i])
                == Some(self.commits()[i + 1].hash)
        &&& (self.commits().len() > 0 && self.next_hash() is Some) ==> self.next_hash()
            == commit_parent(self.texts().last())
    }

    #[verifier::type_invariant]
    spec fn walk_invariant(self) -> bool {
        self.chained()
    }

    /// A walk that starts at `head`, the hash of the head commit if there
    /// is one.
    pub fn start(head: Option<String>) -> (walk: LogWalk)
        ensures
            walk.commits() == Seq::<CommitInfoView>::empty(),
            walk.next_hash() == head.deep_view(),
            walk.chained(),
    {
        let walk = LogWalk { commits: Vec::new(), next: head, texts: Ghost(Seq::empty()) };
        assert(walk.commits() =~= Seq::<CommitInfoView>::empty());
        walk
    }

    /// The hash whose object is to be read next, or `None` when the walk
    /// is over.
    pub fn pending(&self) -> (hash: Option<String>)
        ensures
            hash.deep_view() == self.pending_hash(),
            self.chained(),
    {
        proof {
            use_type_invariant(self);
        }
        if self.commits.len() < LOG_LIMIT {
            match &self.next {
                Some(h) => Some(h.clone()),
                None => None,
            }
        } else {
            None
        }
    }

    /// Hands over the object of the pending hash: `None` when it could not
    /// be read, which ends the walk. A commit that was read joins the log,
    /// and its parent, if any, is read next. Without a pending hash nothing
    /// changes.
    pub fn feed(&mut self, object: Option<Vec<u8>>)
        ensures
            final(self).chained(),
            old(self).pending_hash() is None ==> final(self).commits() == old(self).commits()
                && final(self).next_hash() == old(self).next_hash(),
            old(self).pending_hash() is Some ==> match object {
                None => final(self).commits() == old(self).commits() && final(self).next_hash()
                    is None,
                Some(bytes) => {
                    &&& final(self).commits() == old(self).commits().push(
                        CommitInfoView {
                            hash: old(self).pending_hash()->0,
                            message: commit_message(lossy_text(bytes@)),
                        },
                    )
                    &&& final(self).next_hash() == commit_parent(lossy_text(bytes@))
                },
            },
    {
        proof {
            use_type_invariant(&*self);
        }
        if self.commits.len() >= LOG_LIMIT || self.next.is_none() {
            return;
        }
        let mut taken = LogWalk { commits: Vec::new(), next: None, texts: Ghost(Seq::empty()) };
        std::mem::swap(self, &mut taken);
        let LogWalk { mut commits, next, texts } = taken;
        let hash = match next {
            Some(h) => h,
            None => String::new(),
        };
        match object {
            None => {
                *self = LogWalk { commits, next: None, texts };
            },
            Some(bytes) => {
                let text = text_from_bytes(bytes.as_slice());
                let (message, parent) = parse_commit(text.as_str());
                let ghost old_commits = commits.deep_view();
                commits.push(CommitInfo { hash, message });
                assert(commits.deep_view() =~= old_commits.push(
                    CommitInfoView { hash: hash@, message: message@ },
                ));
                let ghost new_texts = texts@.push(text@);
                *self = LogWalk { commits, next: parent, texts: Ghost(new_texts) };
            },
        }
    }

    /// The commits gathered, newest first.
    pub fn into_log(self) -> (log: Vec<CommitInfo>)
        ensures
            log.deep_view() == self.commits(),
            log.len() <= LOG_LIMIT,
    {
        proof {
            use_type_invariant(&self);
        }
        self.commits
    }
}

} // verus!
