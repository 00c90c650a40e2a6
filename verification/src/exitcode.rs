//! Exit-code classification for subprocess runs.
//!
//! A run counts as successful when the exit code is a multiple of 255 or a
//! multiple of 130. Zero is conventional success; 255 arises from tool
//! wrappers that encode a no-op success as a wrapped value; 130 is the
//! conventional code for termination by interactive interrupt, which this
//! tool treats as a user-initiated non-error exit. The dual-modulus rule is a
//! deliberate policy and is preserved exactly.

use vstd::prelude::*;

verus! {

/// The exit-code classification policy: a code counts as success exactly when
/// it is divisible by 255 or by 130.
pub open spec fn is_success_code(c: int) -> bool {
    c % 255 == 0 || c % 130 == 0
}

/// Classifies one exit code under the dual-modulus policy.
pub fn is_success(code: i32) -> (r: bool)
    ensures
        r == is_success_code(code as int),
{
    code % 255 == 0 || code % 130 == 0
}

} // verus!
