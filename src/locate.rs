//! Choosing, from a repository's history, the newest PHP commit of an author.
use vstd::prelude::*;
use crate::classify::{is_php, php_change};
use crate::text::{contains, contains_str};

verus! {

/// What the locator reads of one commit.
pub struct CommitRecord {
    pub oid: git2::Oid,
    pub author_email: String,
    /// Authorship time, in seconds since the epoch.
    pub time: i64,
    pub message: Option<String>,
    pub parent_count: usize,
    /// New paths of the commit's diff against its first parent, or against
    /// the empty tree for a root commit. Left empty where the diff was not
    /// needed: for another author's commits and for merge commits.
    pub new_paths: Vec<String>,
}

/// The newest PHP commit found in one repository.
pub struct HlaipfResult {
    pub repository_path: String,
    pub commit_message: Option<String>,
    /// Authorship time, in seconds since the epoch.
    pub commit_time: i64,
    pub commit_oid: git2::Oid,
}

pub open spec fn text_of(m: Option<String>) -> Option<Seq<char>> {
    match m {
        Some(s) => Some(s@),
        None => None,
    }
}

impl CommitRecord {
    /// The commit's author email holds `author`, and the commit introduces a
    /// PHP file.
    pub open spec fn qualifies(&self, author: Seq<char>) -> bool {
        contains(self.author_email@, author) && php_change(
            self.parent_count as nat,
            self.new_paths.deep_view(),
        )
    }
}

impl HlaipfResult {
    /// This result reports commit `c` of the repository at `path`.
    pub open spec fn reports(&self, c: CommitRecord, path: Seq<char>) -> bool {
        &&& self.repository_path@ == path
        &&& self.commit_oid == c.oid
        &&& self.commit_time == c.time
        &&& text_of(self.commit_message) == text_of(c.message)
    }
}

/// `history[i]` qualifies, and no commit of `history` that qualifies is
/// newer; among equally new ones it is listed first.
pub open spec fn is_newest_match(history: Seq<CommitRecord>, author: Seq<char>, i: int) -> bool {
    &&& 0 <= i < history.len()
    &&& history[i].qualifies(author)
    &&& forall|j: int|
        0 <= j < history.len() && (#[trigger] history[j]).qualifies(author) ==> history[j].time
            <= history[i].time
    &&& forall|j: int|
        0 <= j < i && (#[trigger] history[j]).qualifies(author) ==> history[j].time
            < history[i].time
}

/// No commit of `history` qualifies.
pub open spec fn no_match(history: Seq<CommitRecord>, author: Seq<char>) -> bool {
    forall|j: int| 0 <= j < history.len() ==> !(#[trigger] history[j]).qualifies(author)
}

/// Whether commit `c` is by `author` and introduces a PHP file.
pub fn qualifies(c: &CommitRecord, author: &str) -> (r: bool)
    ensures
        r == c.qualifies(author@),
{
    contains_str(c.author_email.as_str(), author) && is_php(c.parent_count, &c.new_paths)
}

/// The position of the newest commit in `history` that qualifies, by
/// authorship time; among equally new ones, the first listed.
pub fn newest_match(history: &Vec<CommitRecord>, author: &str) -> (r: Option<usize>)
    ensures
        match r {
            Some(i) => is_newest_match(history@, author@, i as int),
            None => no_match(history@, author@),
        },
{
    let mut best: Option<usize> = None;
    let mut k: usize = 0;
    while k < history.len()
        invariant
            k <= history@.len(),
            match best {
                Some(b) => {
                    &&& b < k
                    &&& history@[b as int].qualifies(author@)
                    &&& forall|j: int|
                        0 <= j < k && (#[trigger] history@[j]).qualifies(author@)
                            ==> history@[j].time <= history@[b as int].time
                    &&& forall|j: int|
                        0 <= j < b && (#[trigger] history@[j]).qualifies(author@)
                            ==> history@[j].time < history@[b as int].time
                },
                None => forall|j: int| 0 <= j < k ==> !(#[trigger] history@[j]).qualifies(author@),
            },
        decreases history@.len() - k,
    {
        if qualifies(&history[k], author) {
            match best {
                Some(b) => {
                    if history[k].time > history[b].time {
                        best = Some(k);
                    }
                },
                None => {
                    best = Some(k);
                },
            }
        }
        k = k + 1;
    }
    best
}

fn copy_text(m: &Option<String>) -> (r: Option<String>)
    ensures
        text_of(r) == text_of(*m),
{
    match m {
        Some(s) => Some(s.clone()),
        None => None,
    }
}

/// The result that reports commit `c` of the repository at `path`.
pub fn report_commit(c: &CommitRecord, path: &str) -> (r: HlaipfResult)
    ensures
        r.reports(*c, path@),
{
    HlaipfResult {
        repository_path: path.to_string(),
        commit_message: copy_text(&c.message),
        commit_time: c.time,
        commit_oid: c.oid,
    }
}

/// The newest PHP commit by `author` in `history`, reported for the
/// repository at `path`.
pub fn locate_in(history: &Vec<CommitRecord>, author: &str, path: &str) -> (r: Option<
    HlaipfResult,
>)
    ensures
        match r {
            Some(res) => exists|i: int|
                is_newest_match(history@, author@, i) && res.reports(history@[i], path@),
            None => no_match(history@, author@),
        },
{
    match newest_match(history, author) {
        Some(i) => Some(report_commit(&history[i], path)),
        None => None,
    }
}

/// A located commit is by the author and is no merge commit.
pub proof fn lemma_located_is_authored_non_merge(c: CommitRecord, author: Seq<char>)
    requires
        c.qualifies(author),
    ensures
        contains(c.author_email@, author),
        c.parent_count <= 1,
{
}

} // verus!
