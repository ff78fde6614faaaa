//! Parsing of the boolean-like configuration flags.
//!
//! The disable and diagnostic flags are configured as strings; a flag is
//! active exactly when its value is `"1"` or a case-insensitive spelling of
//! `"true"`. The flag values arrive here as bytes; reading them from the
//! process environment is the shell's job.

use vstd::prelude::*;

verus! {

/// Whether a byte equals an ASCII letter in either case. `upper` and
/// `lower` are the two spellings of one letter.
pub open spec fn ascii_either_case(b: u8, lower: u8, upper: u8) -> bool {
    b == lower || b == upper
}

/// Whether a flag value activates the flag: exactly the string `1`, or the
/// word `true` in any mix of ASCII case.
pub open spec fn spec_is_truthy(s: Seq<u8>) -> bool {
    ||| (s.len() == 1 && s[0] == 49)
    ||| (s.len() == 4 && ascii_either_case(s[0], 116, 84) && ascii_either_case(s[1], 114, 82)
        && ascii_either_case(s[2], 117, 85) && ascii_either_case(s[3], 101, 69))
}

/// Decides whether a boolean-like configuration value activates its flag:
/// `"1"` and any ASCII casing of `"true"` do; everything else does not.
pub fn is_truthy(v: &[u8]) -> (r: bool)
    ensures
        r == spec_is_truthy(v@),
{
    if v.len() == 1 {
        v[0] == 49u8
    } else if v.len() == 4 {
        (v[0] == 116u8 || v[0] == 84u8) && (v[1] == 114u8 || v[1] == 82u8) && (v[2] == 117u8
            || v[2] == 85u8) && (v[3] == 101u8 || v[3] == 69u8)
    } else {
        false
    }
}

} // verus!
