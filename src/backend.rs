//! The git objects the library reads, and the calls into git2 that read them.
//!
//! Everything here depends on what is stored on disk, so the wrappers promise
//! nothing about the values they return beyond their types.
use vstd::prelude::*;

verus! {

/// An open git repository.
#[verifier::external_type_specification]
#[verifier::external_body]
pub struct ExRepository(git2::Repository);

/// An error reported by libgit2.
#[verifier::external_type_specification]
#[verifier::external_body]
pub struct ExError(git2::Error);

/// A git object identifier.
#[verifier::external_type_specification]
#[verifier::external_body]
pub struct ExOid(git2::Oid);

/// A commit read from a repository.
#[verifier::external_type_specification]
#[verifier::external_body]
pub struct ExCommit<'repo>(git2::Commit<'repo>);

/// A walk over a repository's history.
#[verifier::external_type_specification]
#[verifier::external_body]
pub struct ExRevwalk<'repo>(git2::Revwalk<'repo>);

/// A tree read from a repository.
#[verifier::external_type_specification]
#[verifier::external_body]
pub struct ExTree<'repo>(git2::Tree<'repo>);

/// Relies on git2::Repository::open: opens the repository at `path`.
#[verifier::external_body]
pub(crate) fn open_repository(path: &str) -> (r: Result<git2::Repository, git2::Error>) {
    git2::Repository::open(path)
}

/// Relies on git2::Repository::path: the repository's git directory, as text.
#[verifier::external_body]
pub(crate) fn repository_path(repo: &git2::Repository) -> (r: String) {
    repo.path().to_string_lossy().into_owned()
}

/// Relies on git2::Repository::revparse_single: the commit that `HEAD` names.
#[verifier::external_body]
pub(crate) fn resolve_head(repo: &git2::Repository) -> (r: Result<git2::Oid, git2::Error>) {
    repo.revparse_single("HEAD").map(|o| o.id())
}

/// Relies on git2::Repository::revwalk: a new walker over the repository's
/// commits.
#[verifier::external_body]
pub(crate) fn new_walk<'r>(repo: &'r git2::Repository) -> (r: Result<git2::Revwalk<'r>, git2::Error>) {
    repo.revwalk()
}

/// Relies on git2::Revwalk::set_sorting with `Sort::TIME`: the walker visits
/// commits by commit time, newer first.
#[verifier::external_body]
pub(crate) fn sort_by_time(walk: &mut git2::Revwalk) -> (r: Result<(), git2::Error>) {
    walk.set_sorting(git2::Sort::TIME)
}

/// Relies on git2::Revwalk::push: the walk starts from commit `start`.
#[verifier::external_body]
pub(crate) fn push_start(walk: &mut git2::Revwalk, start: git2::Oid) -> (r: Result<(), git2::Error>) {
    walk.push(start)
}

/// Relies on git2::Revwalk's `Iterator::next`: every commit the walk reaches,
/// each once, in the walker's order; the first error ends it.
#[verifier::external_body]
pub(crate) fn walk_ids(walk: git2::Revwalk) -> (r: Result<Vec<git2::Oid>, git2::Error>) {
    walk.collect()
}

/// Relies on git2::Repository::find_commit: the commit stored under `id`.
#[verifier::external_body]
pub(crate) fn find_commit<'r>(repo: &'r git2::Repository, id: git2::Oid) -> (r: Result<
    git2::Commit<'r>,
    git2::Error,
>) {
    repo.find_commit(id)
}

/// Relies on git2::Signature::email: the commit author's email, or an error
/// where it is not UTF-8.
#[verifier::external_body]
pub(crate) fn author_email(c: &git2::Commit) -> (r: Result<String, git2::Error>) {
    c.author().email().map(|e| e.to_string())
}

/// Relies on git2::Signature::when: the authorship time, in seconds since the
/// epoch.
#[verifier::external_body]
pub(crate) fn author_seconds(c: &git2::Commit) -> (r: i64) {
    c.author().when().seconds()
}

/// Relies on git2::Commit::message: the commit message, or an error where it
/// is not UTF-8.
#[verifier::external_body]
pub(crate) fn commit_message(c: &git2::Commit) -> (r: Result<String, git2::Error>) {
    c.message().map(|m| m.to_string())
}

/// Relies on git2::Commit::parent_count: how many parents the commit has.
#[verifier::external_body]
pub(crate) fn parent_count(c: &git2::Commit) -> (r: usize) {
    c.parent_count()
}

/// Relies on git2::Commit::parent: the commit's first parent.
#[verifier::external_body]
pub(crate) fn first_parent<'r>(c: &git2::Commit<'r>) -> (r: Result<git2::Commit<'r>, git2::Error>) {
    c.parent(0)
}

/// Relies on git2::Commit::tree: the tree the commit records.
#[verifier::external_body]
pub(crate) fn commit_tree<'r>(c: &git2::Commit<'r>) -> (r: Result<git2::Tree<'r>, git2::Error>) {
    c.tree()
}

/// Relies on git2::Repository::diff_tree_to_tree: the new-file path of each
/// change between `old` (the empty tree where absent) and `new`.
#[verifier::external_body]
pub(crate) fn diff_new_paths(
    repo: &git2::Repository,
    old: Option<&git2::Tree>,
    new: &git2::Tree,
) -> (r: Result<Vec<Option<String>>, git2::Error>) {
    let diff = repo.diff_tree_to_tree(old, Some(new), None)?;
    Ok(diff.deltas().map(|d| d.new_file().path().map(|p| p.to_string_lossy().into_owned())).collect())
}

} // verus!
