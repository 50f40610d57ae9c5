use std::time::{SystemTime, UNIX_EPOCH};

use git2::{Oid, Repository, Signature, Time};
use hlaipf::locator::{PhpCommitLocator, RepositoryCollection};
use hlaipf::aggregate::aggregate;
use hlaipf::scan::{collect_results, Location};

fn scratch(name: &str) -> String {
    let nanos = SystemTime::now().duration_since(UNIX_EPOCH).unwrap().as_nanos();
    format!("/tmp/hlaipf-{}-{}", name, nanos)
}

/// Records a commit whose tree is the first parent's tree with `files` added
/// or rewritten; `HEAD` moves to it where `head` is set.
fn commit(
    repo: &Repository,
    email: &str,
    time: i64,
    files: &[(&str, &str)],
    parents: &[Oid],
    head: bool,
) -> Oid {
    let base = parents.first().map(|p| repo.find_commit(*p).unwrap().tree().unwrap());
    let mut builder = repo.treebuilder(base.as_ref()).unwrap();
    for (name, text) in files {
        let blob = repo.blob(text.as_bytes()).unwrap();
        builder.insert(*name, blob, 0o100644).unwrap();
    }
    let tree = repo.find_tree(builder.write().unwrap()).unwrap();
    let sig = Signature::new("someone", email, &Time::new(time, 0)).unwrap();
    let parent_commits: Vec<git2::Commit> = parents.iter().map(|p| repo.find_commit(*p).unwrap()).collect();
    let parent_refs: Vec<&git2::Commit> = parent_commits.iter().collect();
    let update = if head { Some("HEAD") } else { None };
    repo.commit(update, &sig, &sig, &format!("change at {}", time), &tree, &parent_refs).unwrap()
}

fn locate(path: &str, author: &str) -> Result<Option<hlaipf::locate::HlaipfResult>, git2::Error> {
    let mut locator = PhpCommitLocator::new(author, Repository::open(path).unwrap());
    locator.fetch_earliest_php_commit()
}

#[test]
fn root_commit_adding_php_is_found() {
    let path = scratch("root-php");
    let repo = Repository::init(&path).unwrap();
    let root = commit(&repo, "a@x.com", 1000, &[("index.php", "<?php")], &[], true);
    let r = locate(&path, "a@x.com").unwrap().unwrap();
    assert_eq!(r.commit_oid, root);
    assert_eq!(r.commit_time, 1000);
    assert_eq!(r.commit_message, Some("change at 1000".to_string()));
    assert!(r.repository_path.ends_with(".git/"));
}

#[test]
fn root_commit_adding_readme_is_not_found() {
    let path = scratch("root-readme");
    let repo = Repository::init(&path).unwrap();
    commit(&repo, "a@x.com", 1000, &[("readme.md", "hi")], &[], true);
    assert!(locate(&path, "a@x.com").unwrap().is_none());
}

#[test]
fn modified_stylesheet_is_not_php_until_api_php_is_added() {
    let path = scratch("css");
    let repo = Repository::init(&path).unwrap();
    let root = commit(&repo, "a@x.com", 1000, &[("style.css", "a"), ("readme.md", "r")], &[], true);
    let second = commit(&repo, "a@x.com", 2000, &[("style.css", "b")], &[root], true);
    assert!(locate(&path, "a@x.com").unwrap().is_none());
    let third = commit(&repo, "a@x.com", 3000, &[("style.css", "c"), ("api.php", "<?php")], &[second], true);
    assert_eq!(locate(&path, "a@x.com").unwrap().unwrap().commit_oid, third);
}

#[test]
fn merge_commit_bringing_php_is_not_php() {
    let path = scratch("merge");
    let repo = Repository::init(&path).unwrap();
    let root = commit(&repo, "a@x.com", 1000, &[("readme.md", "r")], &[], true);
    let side = commit(&repo, "b@y.com", 1500, &[("side.php", "<?php")], &[root], false);
    let main = commit(&repo, "a@x.com", 2000, &[("readme.md", "r2")], &[root], true);
    commit(&repo, "a@x.com", 3000, &[("side.php", "<?php")], &[main, side], true);
    assert!(locate(&path, "a@x.com").unwrap().is_none());
    assert_eq!(locate(&path, "b@y.com").unwrap().unwrap().commit_oid, side);
}

#[test]
fn newest_matching_commit_wins_within_a_repository() {
    let path = scratch("newest");
    let repo = Repository::init(&path).unwrap();
    let root = commit(&repo, "a@x.com", 1000, &[("index.php", "<?php")], &[], true);
    let mid = commit(&repo, "a@x.com", 2000, &[("lib.php", "<?php")], &[root], true);
    let top = commit(&repo, "b@y.com", 3000, &[("other.php", "<?php")], &[mid], true);
    assert_eq!(locate(&path, "a@x.com").unwrap().unwrap().commit_oid, mid);
    assert_eq!(locate(&path, "x.com").unwrap().unwrap().commit_oid, mid);
    assert_eq!(locate(&path, "y.com").unwrap().unwrap().commit_oid, top);
    assert!(locate(&path, "A@X.COM").unwrap().is_none());
}

#[test]
fn repository_without_head_fails() {
    let path = scratch("empty");
    Repository::init(&path).unwrap();
    assert!(locate(&path, "a@x.com").is_err());
}

#[test]
fn plain_file_location_yields_no_collection() {
    assert!(RepositoryCollection::create(false, vec!["/tmp".to_string()]).is_none());
    let found = collect_results(
        "a@x.com",
        vec![Location { is_dir: false, entries: vec!["/tmp".to_string()] }],
    );
    assert!(found.is_empty());
}

#[test]
fn entries_that_are_not_repositories_are_skipped() {
    let root = scratch("collection");
    let good = format!("{}/good", root);
    let repo = Repository::init(&good).unwrap();
    commit(&repo, "a@x.com", 1000, &[("readme.md", "r")], &[], true);
    let missing = format!("{}/missing", root);
    let mut c = RepositoryCollection::create(true, vec![missing.clone(), good, missing]).unwrap();
    let first = c.next().unwrap();
    assert!(first.path().to_string_lossy().ends_with("good/.git/"));
    assert_eq!(c.position, 2);
    assert!(c.next().is_none());
    assert_eq!(c.position, 3);
    assert!(c.next().is_none());
    let mut empty = RepositoryCollection::create(true, Vec::new()).unwrap();
    assert!(empty.next().is_none());
}

#[test]
fn latest_commit_across_repositories_is_reported() {
    let root = scratch("end-to-end");
    let one = format!("{}/one", root);
    let two = format!("{}/two", root);
    let repo_one = Repository::init(&one).unwrap();
    let repo_two = Repository::init(&two).unwrap();
    let r1 = commit(&repo_one, "a@x.com", 1000, &[("index.php", "<?php")], &[], true);
    commit(&repo_one, "b@y.com", 5000, &[("late.php", "<?php")], &[r1], true);
    let r2 = commit(&repo_two, "a@x.com", 2000, &[("lib.php", "<?php")], &[], true);
    let locations = vec![
        Location { is_dir: true, entries: vec![one.clone(), format!("{}/none", root), two.clone()] },
        Location { is_dir: false, entries: Vec::new() },
    ];
    let w = aggregate(collect_results("a@x.com", locations)).unwrap();
    assert_eq!(w.commit_oid, r2);
    assert_eq!(w.commit_time, 2000);
    assert!(w.repository_path.ends_with("two/.git/"));
    let none = aggregate(collect_results("c@z.com", vec![Location { is_dir: true, entries: vec![one, two] }]));
    assert!(none.is_none());
}

#[test]
fn try_next_takes_one_entry_at_a_time() {
    let root = scratch("step");
    let good = format!("{}/good", root);
    Repository::init(&good).unwrap();
    let mut c = RepositoryCollection::create(true, vec![format!("{}/missing", root), good]).unwrap();
    assert!(matches!(c.try_next(), Some(None)));
    assert_eq!(c.position, 1);
    assert!(matches!(c.try_next(), Some(Some(_))));
    assert_eq!(c.position, 2);
    assert!(c.try_next().is_none());
    assert_eq!(c.position, 2);
}

#[test]
fn search_reads_every_reachable_commit() {
    let path = scratch("history");
    let repo = Repository::init(&path).unwrap();
    let root = commit(&repo, "a@x.com", 1000, &[("index.php", "<?php")], &[], true);
    let mid = commit(&repo, "b@y.com", 2000, &[("readme.md", "r")], &[root], true);
    commit(&repo, "a@x.com", 3000, &[("style.css", "c")], &[mid], true);
    let mut locator = PhpCommitLocator::new("a@x.com", Repository::open(&path).unwrap());
    assert!(locator.history.is_empty());
    let r = locator.fetch_earliest_php_commit().unwrap().unwrap();
    assert_eq!(r.commit_oid, root);
    assert_eq!(locator.history.len(), 3);
    assert_eq!(locator.history[2].oid, root);
    assert_eq!(r.repository_path, locator.repository_path);
}

#[test]
fn author_time_decides_even_against_commit_time() {
    let path = scratch("author-time");
    let repo = Repository::init(&path).unwrap();
    let tree_oid = {
        let mut b = repo.treebuilder(None).unwrap();
        b.insert("old.php", repo.blob(b"<?php").unwrap(), 0o100644).unwrap();
        b.write().unwrap()
    };
    let tree = repo.find_tree(tree_oid).unwrap();
    let author = Signature::new("someone", "a@x.com", &Time::new(9000, 0)).unwrap();
    let committer = Signature::new("someone", "a@x.com", &Time::new(1000, 0)).unwrap();
    let first = repo.commit(Some("HEAD"), &author, &committer, "authored late", &tree, &[]).unwrap();
    let second = commit(&repo, "a@x.com", 5000, &[("new.php", "<?php")], &[first], true);
    let r = locate(&path, "a@x.com").unwrap().unwrap();
    assert_eq!(r.commit_oid, first);
    assert_eq!(r.commit_time, 9000);
    assert_ne!(r.commit_oid, second);
}
