//! Walking a git repository's history, and finding repositories in a directory.
use vstd::prelude::*;
use crate::backend::{
    author_email, author_seconds, commit_message, commit_tree, diff_new_paths, find_commit,
    first_parent, new_walk, open_repository, parent_count, push_start, repository_path, resolve_head,
    sort_by_time, walk_ids,
};
use crate::locate::{
    is_newest_match, locate_in, no_match, text_of, CommitRecord, HlaipfResult,
};
use crate::text::contains_str;

verus! {

/// Some entry of `v` holds the text `p`.
spec fn held_by(v: Seq<Option<String>>, p: Seq<char>) -> bool {
    exists|j: int| 0 <= j < v.len() && text_of(v[j]) == Some(p)
}

/// The paths that are present, in order.
fn known_paths(v: &Vec<Option<String>>) -> (r: Vec<String>)
    ensures
        forall|i: int| 0 <= i < r@.len() ==> held_by(v@, (#[trigger] r@[i])@),
        forall|j: int| 0 <= j < v@.len() && (#[trigger] v@[j]).is_some() ==> exists|i: int|
            0 <= i < r@.len() && text_of(v@[j]) == Some(r@[i]@),
{
    let mut out: Vec<String> = Vec::new();
    let ghost mut src: Seq<int> = Seq::empty();
    let mut k: usize = 0;
    while k < v.len()
        invariant
            k <= v@.len(),
            src.len() == out@.len(),
            forall|i: int| 0 <= i < out@.len() ==> 0 <= #[trigger] src[i] < k && text_of(v@[src[i]]) == Some(out@[i]@),
            forall|j: int| 0 <= j < k && (#[trigger] v@[j]).is_some() ==> exists|i: int|
                0 <= i < out@.len() && text_of(v@[j]) == Some(out@[i]@),
        decreases v@.len() - k,
    {
        if let Some(p) = &v[k] {
            let ghost old_out = out@;
            out.push(p.clone());
            proof {
                src = src.push(k as int);
                assert forall|j: int| 0 <= j < k + 1 && (#[trigger] v@[j]).is_some()
                    implies exists|i: int| 0 <= i < out@.len() && text_of(v@[j]) == Some(out@[i]@) by {
                    if j < k {
                        let i = choose|i: int| 0 <= i < old_out.len() && text_of(v@[j]) == Some(old_out[i]@);
                        assert(out@[i] == old_out[i]);
                    } else {
                        assert(text_of(v@[j]) == Some(out@[old_out.len() as int]@));
                    }
                }
            }
        }
        k = k + 1;
    }
    assert forall|i: int| 0 <= i < out@.len() implies held_by(v@, (#[trigger] out@[i])@) by {
        assert(text_of(v@[src[i]]) == Some(out@[i]@));
    }
    out
}

/// The new paths of commit `c`'s diff against its first parent, or against
/// the empty tree when it has no parent.
fn new_paths_of(repo: &git2::Repository, c: &git2::Commit, parents: usize) -> (r: Result<
    Vec<String>,
    git2::Error,
>) {
    let to = match commit_tree(c) {
        Ok(t) => t,
        Err(e) => return Err(e),
    };
    let changed = if parents == 0 {
        diff_new_paths(repo, None, &to)
    } else {
        let p = match first_parent(c) {
            Ok(p) => p,
            Err(e) => return Err(e),
        };
        let from = match commit_tree(&p) {
            Ok(t) => t,
            Err(e) => return Err(e),
        };
        diff_new_paths(repo, Some(&from), &to)
    };
    match changed {
        Ok(v) => Ok(known_paths(&v)),
        Err(e) => Err(e),
    }
}

/// Reads commit `id`. Its diff is computed only where the author matches and
/// the commit is no merge; otherwise no path is recorded.
fn read_record(repo: &git2::Repository, id: git2::Oid, author: &str) -> (r: Result<
    CommitRecord,
    git2::Error,
>)
    ensures
        r matches Ok(c) ==> c.oid == id,
{
    let c = match find_commit(repo, id) {
        Ok(c) => c,
        Err(e) => return Err(e),
    };
    let email = match author_email(&c) {
        Ok(e) => e,
        Err(e) => return Err(e),
    };
    let message = match commit_message(&c) {
        Ok(m) => Some(m),
        Err(_) => None,
    };
    let parents = parent_count(&c);
    let new_paths = if parents <= 1 && contains_str(email.as_str(), author) {
        match new_paths_of(repo, &c, parents) {
            Ok(v) => v,
            Err(e) => return Err(e),
        }
    } else {
        Vec::new()
    };
    Ok(CommitRecord {
        oid: id,
        author_email: email,
        time: author_seconds(&c),
        message,
        parent_count: parents,
        new_paths,
    })
}

/// Reads each commit of `ids`, in order.
fn read_records(repo: &git2::Repository, ids: &Vec<git2::Oid>, author: &str) -> (r: Result<
    Vec<CommitRecord>,
    git2::Error,
>)
    ensures
        r matches Ok(h) ==> h@.len() == ids@.len() && forall|k: int|
            0 <= k < h@.len() ==> (#[trigger] h@[k]).oid == ids@[k],
{
    let mut h: Vec<CommitRecord> = Vec::new();
    let mut i: usize = 0;
    while i < ids.len()
        invariant
            i <= ids@.len(),
            h@.len() == i,
            forall|k: int| 0 <= k < h@.len() ==> (#[trigger] h@[k]).oid == ids@[k],
        decreases ids@.len() - i,
    {
        let c = match read_record(repo, ids[i], author) {
            Ok(c) => c,
            Err(e) => return Err(e),
        };
        h.push(c);
        i = i + 1;
    }
    Ok(h)
}

/// Looks for the newest commit of one author that introduced a PHP file.
pub struct PhpCommitLocator {
    pub author: String,
    pub repo: git2::Repository,
    /// The repository's git directory, as text.
    pub repository_path: String,
    /// The commits read by the last search, in the order of the walk.
    pub history: Vec<CommitRecord>,
}

impl PhpCommitLocator {
    pub fn new(author: &str, repo: git2::Repository) -> (r: PhpCommitLocator)
        ensures
            r.author@ == author@,
            r.repo == repo,
            r.history@.len() == 0,
    {
        let repository_path = repository_path(&repo);
        PhpCommitLocator { author: author.to_string(), repo, repository_path, history: Vec::new() }
    }

    /// Every commit reachable from `head`, newest first by commit time.
    fn commits_newest_first(&self, head: git2::Oid) -> (r: Result<Vec<git2::Oid>, git2::Error>) {
        let mut walk = match new_walk(&self.repo) {
            Ok(w) => w,
            Err(e) => return Err(e),
        };
        if let Err(e) = sort_by_time(&mut walk) {
            return Err(e);
        }
        if let Err(e) = push_start(&mut walk, head) {
            return Err(e);
        }
        walk_ids(walk)
    }

    /// Reads every commit reachable from `HEAD` into `history`, then reports
    /// the newest one, by authorship time, that is by the author and
    /// introduces a PHP file; `None` where no commit does. Fails where `HEAD`
    /// cannot be resolved or a commit cannot be read, and then leaves
    /// `history` as it was.
    pub fn fetch_earliest_php_commit(&mut self) -> (r: Result<Option<HlaipfResult>, git2::Error>)
        ensures
            final(self).author == old(self).author,
            final(self).repo == old(self).repo,
            final(self).repository_path == old(self).repository_path,
            r is Err ==> final(self).history == old(self).history,
            r matches Ok(Some(res)) ==> exists|i: int|
                is_newest_match(final(self).history@, old(self).author@, i) && res.reports(
                    final(self).history@[i],
                    old(self).repository_path@,
                ),
            r matches Ok(None) ==> no_match(final(self).history@, old(self).author@),
    {
        let head = match resolve_head(&self.repo) {
            Ok(h) => h,
            Err(e) => return Err(e),
        };
        let ids = match self.commits_newest_first(head) {
            Ok(v) => v,
            Err(e) => return Err(e),
        };
        let h = match read_records(&self.repo, &ids, self.author.as_str()) {
            Ok(h) => h,
            Err(e) => return Err(e),
        };
        let r = locate_in(&h, self.author.as_str(), self.repository_path.as_str());
        let ghost hv = h@;
        self.history = h;
        proof {
            if r is Some {
                let i = choose|i: int|
                    is_newest_match(hv, self.author@, i) && r->Some_0.reports(
                        hv[i],
                        self.repository_path@,
                    );
                assert(is_newest_match(self.history@, old(self).author@, i));
            }
        }
        Ok(r)
    }
}

/// The entries of a directory, each tried in turn as a repository.
pub struct RepositoryCollection {
    pub entries: Vec<String>,
    /// How many entries have been tried.
    pub position: usize,
    /// For each entry tried, whether it opened as a repository.
    pub opened: Ghost<Seq<bool>>,
}

impl RepositoryCollection {
    pub open spec fn well_formed(&self) -> bool {
        &&& self.position <= self.entries@.len()
        &&& self.opened@.len() == self.position
    }

    /// A collection over the entries of a directory; `None` where the location
    /// is not a directory.
    pub fn create(is_dir: bool, entries: Vec<String>) -> (r: Option<RepositoryCollection>)
        ensures
            r.is_some() == is_dir,
            r matches Some(c) ==> c.entries@ == entries@ && c.position == 0 && c.well_formed(),
    {
        if is_dir {
            Some(RepositoryCollection { entries, position: 0, opened: Ghost(Seq::empty()) })
        } else {
            None
        }
    }

    /// Tries the next entry as a repository: `None` where every entry has been
    /// tried; otherwise `Some` of the repository, or `Some(None)` where the
    /// entry does not open as one.
    pub fn try_next(&mut self) -> (r: Option<Option<git2::Repository>>)
        requires
            old(self).well_formed(),
        ensures
            final(self).well_formed(),
            final(self).entries@ == old(self).entries@,
            r.is_some() <==> old(self).position < old(self).entries@.len(),
            r matches Some(o) ==> final(self).position == old(self).position + 1
                && final(self).opened@ == old(self).opened@.push(o.is_some()),
            r.is_none() ==> *final(self) == *old(self),
    {
        if self.position >= self.entries.len() {
            return None;
        }
        let opened = open_repository(self.entries[self.position].as_str());
        self.position = self.position + 1;
        match opened {
            Ok(repo) => {
                self.opened = Ghost(self.opened@.push(true));
                Some(Some(repo))
            },
            Err(_) => {
                self.opened = Ghost(self.opened@.push(false));
                Some(None)
            },
        }
    }

    /// The next entry that opens as a repository: entries are tried in order,
    /// each once, and those that do not open are skipped. `None` once every
    /// entry has been tried.
    pub fn next(&mut self) -> (r: Option<git2::Repository>)
        requires
            old(self).well_formed(),
        ensures
            final(self).well_formed(),
            final(self).entries@ == old(self).entries@,
            old(self).position <= final(self).position,
            final(self).opened@.subrange(0, old(self).position as int) == old(self).opened@,
            r.is_none() ==> final(self).position == final(self).entries@.len() && forall|k: int|
                old(self).position <= k < final(self).position ==> !final(self).opened@[k],
            r.is_some() ==> old(self).position < final(self).position && final(self).opened@[
                final(self).position - 1] && forall|k: int|
                old(self).position <= k < final(self).position - 1 ==> !final(self).opened@[k],
    {
        assert(self.opened@.subrange(0, self.position as int) =~= self.opened@);
        loop
            invariant
                self.well_formed(),
                self.entries@ == old(self).entries@,
                old(self).position <= self.position,
                self.opened@.subrange(0, old(self).position as int) == old(self).opened@,
                forall|k: int| old(self).position <= k < self.position ==> !self.opened@[k],
            decreases self.entries@.len() - self.position,
        {
            let ghost before = self.opened@;
            match self.try_next() {
                None => {
                    return None;
                },
                Some(Some(repo)) => {
                    assert(self.opened@.subrange(0, old(self).position as int)
                        =~= before.subrange(0, old(self).position as int));
                    return Some(repo);
                },
                Some(None) => {
                    assert(self.opened@.subrange(0, old(self).position as int)
                        =~= before.subrange(0, old(self).position as int));
                },
            }
        }
    }
}

} // verus!
