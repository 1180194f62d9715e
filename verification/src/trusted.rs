//! What this library takes on trust from code that Verus does not read.
//! Every proof in the crate that touches one of these rests on its contract.

use std::ops::RangeInclusive;
use rand::Rng;
use vstd::prelude::*;

verus! {

/// `String::push` of the standard library: the character is appended at the end
/// of the string and the rest of the string is left as it was.
pub assume_specification[ String::push ](s: &mut String, c: char)
    ensures
        final(s)@ == old(s)@.push(c),
;

/// The bytes that `rand::distributions::Alphanumeric` draws from: the
/// ASCII digits and the ASCII letters of both cases.
pub open spec fn is_alphanumeric(b: u8) -> bool {
    48 <= b <= 57 || 65 <= b <= 90 || 97 <= b <= 122
}

/// `rand::Rng::sample` with `rand::distributions::Alphanumeric`, on the
/// generator of the current thread. Which byte comes back is left open;
/// it is always one of the sixty-two bytes that the distribution draws from.
#[verifier::external_body]
pub(crate) fn sample_alphanumeric() -> (b: u8)
    ensures
        is_alphanumeric(b),
{
    rand::thread_rng().sample(rand::distributions::Alphanumeric)
}

/// `rand::Rng::gen_range` with an inclusive range of `i32`, on the generator
/// of the current thread. The call panics when the start of the range lies
/// above its end, so such a range is left out. Which number comes back is
/// left open; it always lies within the range, both ends included.
#[verifier::external_body]
pub(crate) fn sample_range(range: RangeInclusive<i32>) -> (n: i32)
    requires
        range@.start <= range@.end,
    ensures
        range@.start <= n <= range@.end,
{
    rand::thread_rng().gen_range(range)
}

} // verus!
