//! Short codes: strings over the 62-symbol alphabet `[A-Za-z0-9]`.
use rand::distributions::{Alphanumeric, DistString};
use vstd::prelude::*;

verus! {

/// A symbol of the short-code alphabet: an ASCII digit or letter.
pub open spec fn is_code_char(c: char) -> bool {
    ('0' <= c && c <= '9') || ('A' <= c && c <= 'Z') || ('a' <= c && c <= 'z')
}

/// Every symbol of `s` belongs to the short-code alphabet.
pub open spec fn is_code(s: Seq<char>) -> bool {
    forall|i: int| 0 <= i < s.len() ==> is_code_char(#[trigger] s[i])
}

/// Relies on rand's `Alphanumeric::sample_string` over `thread_rng`: it appends
/// `len` symbols, each drawn from `A-Z`, `a-z` and `0-9`, to an empty string.
/// The draw itself is random, so nothing more is stated of it.
#[verifier::external_body]
pub(crate) fn draw_code(len: usize) -> (r: String)
    ensures
        r@.len() == len,
        is_code(r@),
{
    Alphanumeric.sample_string(&mut rand::thread_rng(), len)
}

} // verus!
