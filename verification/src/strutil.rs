//! Small verified string helpers: concatenation, equality, and joining
//! argument lists with single spaces.

use vstd::prelude::*;
use vstd::string::*;

verus! {

/// Concatenates two string slices into a fresh `String`.
pub fn str_concat(a: &str, b: &str) -> (r: String)
    ensures
        r@ == a@ + b@,
{
    let mut s = a.to_owned();
    s.append(b);
    s
}

/// Appends a slice onto an owned string, returning the extended string.
pub fn push_str(s: String, b: &str) -> (r: String)
    ensures
        r@ == s@ + b@,
{
    let mut s = s;
    s.append(b);
    s
}

/// Compares two string slices by contents.
pub fn str_eq(a: &str, b: &str) -> (r: bool)
    ensures
        r == (a@ == b@),
{
    let x = a.to_owned();
    let y = b.to_owned();
    x == y
}

/// The contents of `parts` from index `i` on, joined with single spaces.
pub open spec fn join_from_spec(parts: Seq<Seq<char>>, i: int) -> Seq<char>
    decreases parts.len() - i,
{
    if i < 0 || i >= parts.len() {
        Seq::empty()
    } else if i == parts.len() - 1 {
        parts[i]
    } else {
        parts[i] + seq![' '] + join_from_spec(parts, i + 1)
    }
}

/// The contents of `parts` joined with single spaces; empty when `parts` is.
pub open spec fn join_spec(parts: Seq<Seq<char>>) -> Seq<char> {
    join_from_spec(parts, 0)
}

/// The views of a vector of strings.
pub open spec fn views_of(parts: Seq<String>) -> Seq<Seq<char>> {
    parts.map_values(|s: String| s@)
}

fn join_from(parts: &Vec<String>, i: usize) -> (r: String)
    requires
        i <= parts@.len(),
    ensures
        r@ == join_from_spec(views_of(parts@), i as int),
    decreases parts@.len() - i,
{
    if i >= parts.len() {
        String::new()
    } else if i == parts.len() - 1 {
        let s: &String = &parts[i];
        s.clone()
    } else {
        let rest = join_from(parts, i + 1);
        let mut s: String = parts[i].clone();
        s.append(" ");
        proof {
            reveal_strlit(" ");
            assert(" "@ =~= seq![' ']);
        }
        s.append(rest.as_str());
        s
    }
}

/// Joins a list of argument strings with single spaces, as a shell command
/// tail. An empty list gives the empty string.
pub fn join_with_spaces(parts: &Vec<String>) -> (r: String)
    ensures
        r@ == join_spec(views_of(parts@)),
{
    join_from(parts, 0)
}

} // verus!
