//! Verified decimal rendering of exit codes, used when composing failure
//! messages of the form `"... (exit code: N)"`.

use vstd::prelude::*;
use vstd::string::*;

verus! {

/// The decimal digit character for `d` (0 through 9).
pub open spec fn dec_digit(d: int) -> char {
    if d == 0 {
        '0'
    } else if d == 1 {
        '1'
    } else if d == 2 {
        '2'
    } else if d == 3 {
        '3'
    } else if d == 4 {
        '4'
    } else if d == 5 {
        '5'
    } else if d == 6 {
        '6'
    } else if d == 7 {
        '7'
    } else if d == 8 {
        '8'
    } else {
        '9'
    }
}

/// The decimal rendering of a nonnegative number, most significant digit
/// first, with no leading zeros (a single `'0'` for zero).
pub open spec fn dec_str(n: nat) -> Seq<char>
    decreases n,
{
    if n < 10 {
        seq![dec_digit(n as int)]
    } else {
        dec_str(n / 10) + seq![dec_digit((n % 10) as int)]
    }
}

/// The decimal rendering of a possibly negative number: a leading `'-'`
/// followed by the rendering of its magnitude.
pub open spec fn signed_dec_str(c: int) -> Seq<char> {
    if c < 0 {
        seq!['-'] + dec_str((-c) as nat)
    } else {
        dec_str(c as nat)
    }
}

fn digit_str(d: u64) -> (r: &'static str)
    requires
        d < 10,
    ensures
        r@ == seq![dec_digit(d as int)],
{
    if d == 0 {
        proof { reveal_strlit("0"); }
        "0"
    } else if d == 1 {
        proof { reveal_strlit("1"); }
        "1"
    } else if d == 2 {
        proof { reveal_strlit("2"); }
        "2"
    } else if d == 3 {
        proof { reveal_strlit("3"); }
        "3"
    } else if d == 4 {
        proof { reveal_strlit("4"); }
        "4"
    } else if d == 5 {
        proof { reveal_strlit("5"); }
        "5"
    } else if d == 6 {
        proof { reveal_strlit("6"); }
        "6"
    } else if d == 7 {
        proof { reveal_strlit("7"); }
        "7"
    } else if d == 8 {
        proof { reveal_strlit("8"); }
        "8"
    } else {
        proof { reveal_strlit("9"); }
        "9"
    }
}

fn dec_of(n: u64) -> (r: String)
    ensures
        r@ == dec_str(n as nat),
    decreases n,
{
    if n < 10 {
        digit_str(n).to_owned()
    } else {
        let mut s = dec_of(n / 10);
        s.append(digit_str(n % 10));
        s
    }
}

/// Renders an exit code in decimal, with a leading minus sign when negative.
pub fn code_to_string(code: i32) -> (r: String)
    ensures
        r@ == signed_dec_str(code as int),
{
    if code < 0 {
        let wide: i64 = code as i64;
        let magnitude: u64 = (-wide) as u64;
        let mut s = {
            proof { reveal_strlit("-"); }
            let d: &'static str = "-";
            assert(d@ =~= seq!['-']);
            d.to_owned()
        };
        s.append(dec_of(magnitude).as_str());
        s
    } else {
        dec_of(code as u64)
    }
}

} // verus!
