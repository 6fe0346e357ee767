//! Random alphanumeric strings: player keys and log file names.
use rand::distributions::{Alphanumeric, DistString};
use vstd::prelude::*;

verus! {

/// `c` is an ASCII letter or digit.
pub open spec fn is_alphanumeric(c: char) -> bool {
    ('a' <= c && c <= 'z') || ('A' <= c && c <= 'Z') || ('0' <= c && c <= '9')
}

/// Every character of `s` is an ASCII letter or digit.
pub open spec fn all_alphanumeric(s: Seq<char>) -> bool {
    forall|i: int| 0 <= i < s.len() ==> is_alphanumeric(#[trigger] s[i])
}

/// Relies on rand's `Alphanumeric::sample_string` with the thread-local
/// generator: exactly `length` characters, each drawn from the ASCII
/// letters and digits.
#[verifier::external_body]
pub(crate) fn gen_alphanumeric(length: usize) -> (r: String)
    ensures
        r@.len() == length,
        all_alphanumeric(r@),
{
    Alphanumeric.sample_string(&mut rand::thread_rng(), length)
}

/// How many characters a player key has.
pub const PLAYER_KEY_LENGTH: usize = 32;

/// A fresh, unguessable player key.
pub fn new_player_key() -> (r: String)
    ensures
        r@.len() == PLAYER_KEY_LENGTH,
        all_alphanumeric(r@),
{
    gen_alphanumeric(PLAYER_KEY_LENGTH)
}

} // verus!
