//! Scanning locations for repositories and choosing the newest PHP commit.
use vstd::prelude::*;
use crate::locate::HlaipfResult;
use crate::locator::{PhpCommitLocator, RepositoryCollection};

verus! {

/// A location to scan: whether it is a directory, and the paths of its entries.
pub struct Location {
    pub is_dir: bool,
    pub entries: Vec<String>,
}

pub open spec fn no_directory(locations: Seq<Location>) -> bool {
    forall|i: int| 0 <= i < locations.len() ==> !(#[trigger] locations[i]).is_dir
}

/// Keeps the outcome of one repository's search: a result is added; a
/// repository that failed or has none adds nothing.
pub fn absorb(results: &mut Vec<HlaipfResult>, outcome: Result<Option<HlaipfResult>, git2::Error>)
    ensures
        outcome matches Ok(Some(res)) ==> final(results)@ == old(results)@.push(res),
        !(outcome matches Ok(Some(_))) ==> final(results)@ == old(results)@,
{
    if let Ok(Some(res)) = outcome {
        results.push(res);
    }
}

/// Searches every repository found in `repos`, in order, keeping what each
/// yields.
fn search_collection(author: &str, repos: &mut RepositoryCollection, results: &mut Vec<
    HlaipfResult,
>)
    requires
        old(repos).well_formed(),
{
    loop
        invariant
            repos.well_formed(),
        decreases repos.entries@.len() - repos.position,
    {
        match repos.next() {
            Some(repo) => {
                let mut locator = PhpCommitLocator::new(author, repo);
                let outcome = locator.fetch_earliest_php_commit();
                absorb(results, outcome);
            },
            None => {
                return;
            },
        }
    }
}

/// The newest PHP commit of `author` in each repository found at `locations`.
/// A location that is not a directory adds nothing.
pub fn collect_results(author: &str, locations: Vec<Location>) -> (r: Vec<HlaipfResult>)
    ensures
        no_directory(locations@) ==> r@.len() == 0,
{
    let ghost all = locations@;
    let mut rest = locations;
    let mut results: Vec<HlaipfResult> = Vec::new();
    while rest.len() > 0
        invariant
            no_directory(all) ==> no_directory(rest@) && results@.len() == 0,
        decreases rest@.len(),
    {
        let ghost before = rest@;
        let loc = rest.remove(0);
        proof {
            if no_directory(all) {
                assert(!before[0].is_dir);
                assert forall|i: int| 0 <= i < rest@.len() implies !(#[trigger] rest@[i]).is_dir by {
                    assert(rest@[i] == before[i + 1]);
                }
            }
        }
        if let Some(mut repos) = RepositoryCollection::create(loc.is_dir, loc.entries) {
            search_collection(author, &mut repos, &mut results);
        }
    }
    results
}

} // verus!
