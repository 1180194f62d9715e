//! Spare access keys.
//!
//! Access keys are drawn at random. For the case that every draw gives a
//! key that is taken, the registry has a row of spare keys to fall back
//! on: the numbers from zero up, each written with ten decimal digits.
//! No two of them are alike, so a registry of `n` teams leaves at least
//! one of the first `n + 1` free.

use vstd::prelude::*;
use vstd::set_lib::{lemma_int_range, lemma_len_subset, lemma_map_size, set_int_range};
use crate::server::team::{key_taken, team_with_key, TeamState};
use crate::wire::utils::{digit_of, is_access_key, is_alphanumeric_char};

verus! {

/// Number of spare keys: as many as there are numbers of ten digits.
pub const SPARE_KEYS: u64 = 10_000_000_000;

/// Ten to the power of `width`.
pub open spec fn pow10(width: nat) -> nat
    decreases width,
{
    if width == 0 {
        1
    } else {
        10 * pow10((width - 1) as nat)
    }
}

/// The last `width` decimal digits of `n`, with zeros in front where `n`
/// has fewer.
pub open spec fn padded_decimal(n: nat, width: nat) -> Seq<char>
    decreases width,
{
    if width == 0 {
        Seq::empty()
    } else {
        padded_decimal(n / 10, (width - 1) as nat).push(digit_of(n % 10))
    }
}

/// The spare key with the given number.
pub open spec fn spare_key(number: nat) -> Seq<char> {
    padded_decimal(number, 10)
}

proof fn lemma_pow10_of_ten()
    ensures
        pow10(10) == SPARE_KEYS,
{
    reveal_with_fuel(pow10, 11);
}

proof fn lemma_padded_decimal_form(n: nat, width: nat)
    ensures
        padded_decimal(n, width).len() == width,
        forall|k: int|
            0 <= k < width ==> is_alphanumeric_char(#[trigger] padded_decimal(n, width)[k]),
    decreases width,
{
    if width > 0 {
        lemma_padded_decimal_form(n / 10, (width - 1) as nat);
    }
}

proof fn lemma_padded_decimals_differ(a: nat, b: nat, width: nat)
    requires
        a < pow10(width),
        b < pow10(width),
        padded_decimal(a, width) == padded_decimal(b, width),
    ensures
        a == b,
    decreases width,
{
    if width > 0 {
        let less = (width - 1) as nat;
        let left = padded_decimal(a / 10, less);
        let right = padded_decimal(b / 10, less);
        lemma_padded_decimal_form(a / 10, less);
        lemma_padded_decimal_form(b / 10, less);
        assert(left.push(digit_of(a % 10)).last() == right.push(digit_of(b % 10)).last());
        assert(a % 10 == b % 10);
        assert(left =~= left.push(digit_of(a % 10)).drop_last());
        assert(right =~= right.push(digit_of(b % 10)).drop_last());
        lemma_padded_decimals_differ(a / 10, b / 10, less);
    }
}

/// Every spare key has the form of an access key.
pub proof fn lemma_spare_key_form(number: nat)
    ensures
        is_access_key(spare_key(number)),
{
    lemma_padded_decimal_form(number, 10);
}

/// No two spare keys are alike.
pub proof fn lemma_spare_keys_differ(a: nat, b: nat)
    requires
        a < SPARE_KEYS,
        b < SPARE_KEYS,
        spare_key(a) == spare_key(b),
    ensures
        a == b,
{
    lemma_pow10_of_ten();
    lemma_padded_decimals_differ(a, b, 10);
}

/// A registry of `n` teams, `n` below the number of spare keys, leaves
/// one of the first `n + 1` spare keys free.
pub proof fn lemma_a_spare_key_is_free(teams: Seq<TeamState>)
    requires
        teams.len() < SPARE_KEYS,
    ensures
        exists|number: nat| number <= teams.len() && !key_taken(teams, #[trigger] spare_key(number)),
{
    let n = teams.len() as int;
    if forall|number: nat| number <= n ==> key_taken(teams, #[trigger] spare_key(number)) {
        let place = |i: int| team_with_key(teams, spare_key(i as nat));
        let numbers = set_int_range(0, n + 1);
        let places = numbers.map(place);
        lemma_int_range(0, n + 1);
        lemma_int_range(0, n);
        assert forall|i: int, j: int|
            numbers.contains(i) && numbers.contains(j) && #[trigger] place(i) == #[trigger] place(
                j,
            ) implies i == j by {
            assert(key_taken(teams, spare_key(i as nat)));
            assert(key_taken(teams, spare_key(j as nat)));
            assert(teams[place(i)].access_key == spare_key(i as nat));
            assert(teams[place(j)].access_key == spare_key(j as nat));
            lemma_spare_keys_differ(i as nat, j as nat);
        }
        lemma_map_size(numbers, places, place);
        assert(places.subset_of(set_int_range(0, n))) by {
            assert forall|p: int| places.contains(p) implies set_int_range(0, n).contains(p) by {
                let i = choose|i: int| numbers.contains(i) && place(i) == p;
                assert(key_taken(teams, spare_key(i as nat)));
            }
        }
        lemma_len_subset(places, set_int_range(0, n));
    }
}

/// Writes the spare key with the given number.
pub fn spare_key_text(number: u64) -> (key: String)
    ensures
        key@ == spare_key(number as nat),
        is_access_key(key@),
{
    let mut digits: Vec<char> = Vec::new();
    let mut rest = number;
    let mut width: usize = 0;
    while width < 10
        invariant
            width <= 10,
            digits@.len() == width,
            forall|w: nat|
                width <= w <= 10 ==> #[trigger] padded_decimal(number as nat, w) =~= padded_decimal(
                    rest as nat,
                    (w - width) as nat,
                ) + digits@.reverse(),
        decreases 10 - width,
    {
        let ghost before = digits@;
        let ghost earlier = rest;
        let digit = (48u8 + (rest % 10) as u8) as char;
        digits.push(digit);
        rest = rest / 10;
        proof {
            assert(digit == digit_of((earlier % 10) as nat));
            assert(digits@.reverse() =~= seq![digit] + before.reverse());
            assert forall|w: nat| width + 1 <= w <= 10 implies #[trigger] padded_decimal(
                number as nat,
                w,
            ) =~= padded_decimal(rest as nat, (w - (width + 1)) as nat) + digits@.reverse() by {
                let left = (w - width) as nat;
                assert(padded_decimal(number as nat, w) =~= padded_decimal(earlier as nat, left)
                    + before.reverse());
                assert(padded_decimal(earlier as nat, left) =~= padded_decimal(
                    rest as nat,
                    (left - 1) as nat,
                ).push(digit));
            }
        }
        width = width + 1;
    }
    proof {
        assert(padded_decimal(number as nat, 10) =~= padded_decimal(rest as nat, 0)
            + digits@.reverse());
        assert(padded_decimal(rest as nat, 0) =~= Seq::<char>::empty());
        assert(spare_key(number as nat) =~= digits@.reverse());
        lemma_spare_key_form(number as nat);
    }
    let mut key = String::new();
    let mut i = digits.len();
    while i > 0
        invariant
            i <= digits@.len(),
            key@ =~= digits@.reverse().take(digits@.len() - i),
        decreases i,
    {
        i = i - 1;
        key.push(digits[i]);
    }
    assert(digits@.reverse().take(digits@.len() as int) =~= digits@.reverse());
    key
}

} // verus!
