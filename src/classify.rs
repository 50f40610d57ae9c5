//! Deciding whether a commit introduces a PHP file.
use vstd::prelude::*;

verus! {

/// The path ends with the four characters `.php` (case-sensitive).
pub open spec fn has_php_suffix(p: Seq<char>) -> bool {
    p.len() >= 4 && p.subrange(p.len() - 4, p.len() as int) =~= seq!['.', 'p', 'h', 'p']
}

/// Some path among the changed files' new paths ends with `.php`.
pub open spec fn any_php(paths: Seq<Seq<char>>) -> bool {
    exists|i: int| 0 <= i < paths.len() && has_php_suffix(#[trigger] paths[i])
}

/// A commit with `parent_count` parents, whose diff against its parent (or
/// against the empty tree, for a root commit) shows `paths`, introduces PHP.
/// Merge commits are never inspected and never count.
pub open spec fn php_change(parent_count: nat, paths: Seq<Seq<char>>) -> bool {
    parent_count <= 1 && any_php(paths)
}

/// Whether `path` ends with `.php`.
pub fn ends_with_php(path: &str) -> (r: bool)
    ensures
        r == has_php_suffix(path@),
{
    let n = path.unicode_len();
    if n < 4 {
        return false;
    }
    let r = path.get_char(n - 4) == '.' && path.get_char(n - 3) == 'p'
        && path.get_char(n - 2) == 'h' && path.get_char(n - 1) == 'p';
    proof {
        let tail = path@.subrange(n - 4, n as int);
        if r {
            assert(tail =~= seq!['.', 'p', 'h', 'p']);
        } else {
            let want = seq!['.', 'p', 'h', 'p'];
            if tail =~= want {
                assert(tail[0] == want[0] && tail[1] == want[1]);
                assert(tail[2] == want[2] && tail[3] == want[3]);
            }
        }
    }
    r
}

/// Whether any of the new paths of a change set ends with `.php`.
pub fn diff_contains_php(paths: &Vec<String>) -> (r: bool)
    ensures
        r == any_php(paths.deep_view()),
{
    let ghost v = paths.deep_view();
    let mut i: usize = 0;
    while i < paths.len()
        invariant
            i <= paths.len(),
            v == paths.deep_view(),
            forall|j: int| 0 <= j < i ==> !has_php_suffix(#[trigger] v[j]),
        decreases paths.len() - i,
    {
        if ends_with_php(paths[i].as_str()) {
            assert(v[i as int] == paths[i as int]@);
            return true;
        }
        i = i + 1;
    }
    false
}

/// Classifies a commit from its parent count and the new paths of its diff
/// against its first parent (or against the empty tree for a root commit).
pub fn is_php(parent_count: usize, paths: &Vec<String>) -> (r: bool)
    ensures
        r == php_change(parent_count as nat, paths.deep_view()),
{
    if parent_count <= 1 {
        diff_contains_php(paths)
    } else {
        false
    }
}

} // verus!
