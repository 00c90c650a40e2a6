//! The recognized shape of a repository remote URL.
//!
//! A remote such as `git@github.com:org/name.git` names its organization
//! between the last colon that still has a slash after it and the last
//! slash, and the repository after that last slash. Extraction is a plain
//! scan over the characters; inputs without such a colon-slash pair are not
//! recognized.

use vstd::prelude::*;
use vstd::string::*;
use crate::strutil::push_str;
use crate::strutil::str_concat;

verus! {

/// `i` and `j` cut `s` at the recognized positions: `j` is the last slash of
/// `s`, and `i` the last colon before it.
pub open spec fn repo_split_at(s: Seq<char>, i: int, j: int) -> bool {
    &&& 0 <= i < j < s.len()
    &&& s[j] == '/'
    &&& forall|k: int| j < k < s.len() ==> s[k] != '/'
    &&& s[i] == ':'
    &&& forall|k: int| i < k < j ==> s[k] != ':'
}

/// The two recognized cut positions are unique when they exist.
pub proof fn repo_split_unique(s: Seq<char>, i1: int, j1: int, i2: int, j2: int)
    requires
        repo_split_at(s, i1, j1),
        repo_split_at(s, i2, j2),
    ensures
        i1 == i2,
        j1 == j2,
{
    if j1 < j2 {
        assert(s[j2] != '/');
    }
    if j2 < j1 {
        assert(s[j1] != '/');
    }
    if i1 < i2 {
        assert(s[i2] != ':');
    }
    if i2 < i1 {
        assert(s[i1] != ':');
    }
}

/// The organization and repository named by a remote URL, when the input
/// has the recognized colon-then-slash shape.
pub open spec fn repo_name_split(s: Seq<char>) -> Option<(Seq<char>, Seq<char>)> {
    if exists|i: int, j: int| repo_split_at(s, i, j) {
        let (i, j) = choose|i: int, j: int| repo_split_at(s, i, j);
        Some((s.subrange(i + 1, j), s.subrange(j + 1, s.len() as int)))
    } else {
        None
    }
}

/// Splits a remote URL into organization and repository name, when the
/// input has the recognized colon-then-slash shape.
pub fn extract_repo_name(input: &str) -> (r: Option<(String, String)>)
    ensures
        match r {
            None => repo_name_split(input@) is None,
            Some((org, repo)) => repo_name_split(input@) matches Some(cut) && org@ == cut.0
                && repo@ == cut.1,
        },
{
    let n = input.unicode_len();
    let mut idx: usize = n;
    let mut slash: Option<usize> = None;
    while idx > 0 && slash.is_none()
        invariant
            idx <= n,
            n == input@.len(),
            match slash {
                None => forall|k: int| idx <= k < n ==> input@[k] != '/',
                Some(p) => p == idx && p < n && input@[p as int] == '/' && forall|k: int|
                    p < k < n ==> input@[k] != '/',
            },
        decreases idx,
    {
        idx = idx - 1;
        if input.get_char(idx) == '/' {
            slash = Some(idx);
        }
    }
    match slash {
        None => {
            assert(forall|i: int, j: int| !repo_split_at(input@, i, j));
            None
        },
        Some(j) => {
            let mut idx2: usize = j;
            let mut colon: Option<usize> = None;
            while idx2 > 0 && colon.is_none()
                invariant
                    idx2 <= j,
                    j < n,
                    n == input@.len(),
                    input@[j as int] == '/',
                    forall|k: int| j < k < n ==> input@[k] != '/',
                    match colon {
                        None => forall|k: int| idx2 <= k < j ==> input@[k] != ':',
                        Some(c) => c == idx2 && c < j && input@[c as int] == ':' && forall|
                            k: int,
                        | c < k < j ==> input@[k] != ':',
                    },
                decreases idx2,
            {
                idx2 = idx2 - 1;
                if input.get_char(idx2) == ':' {
                    colon = Some(idx2);
                }
            }
            match colon {
                None => {
                    assert forall|i: int, jj: int| !repo_split_at(input@, i, jj) by {
                        if repo_split_at(input@, i, jj) {
                            assert(jj == j);
                        }
                    }
                    None
                },
                Some(i) => {
                    let org = input.substring_char(i + 1, j).to_owned();
                    let repo = input.substring_char(j + 1, n).to_owned();
                    proof {
                        assert(repo_split_at(input@, i as int, j as int));
                        let (ci, cj) = choose|ci: int, cj: int| repo_split_at(input@, ci, cj);
                        repo_split_unique(input@, i as int, j as int, ci, cj);
                    }
                    Some((org, repo))
                },
            }
        },
    }
}

/// The web page of a repository: the fixed host followed by the
/// organization and repository names.
pub fn github_page_url(org: &str, repo: &str) -> (r: String)
    ensures
        r@ == "https://github.com/"@ + org@ + seq!['/'] + repo@,
{
    let s = str_concat("https://github.com/", org);
    let s = push_str(s, "/");
    proof {
        reveal_strlit("/");
        assert("/"@ =~= seq!['/']);
    }
    push_str(s, repo)
}

/// The remote-repository URL template every version-control operation
/// resolves a target name against.
pub fn clone_url(name: &str) -> (r: String)
    ensures
        r@ == "git@github.com:PrecisionNutrition/"@ + name@ + ".git"@,
{
    let s = str_concat("git@github.com:PrecisionNutrition/", name);
    push_str(s, ".git")
}

} // verus!
