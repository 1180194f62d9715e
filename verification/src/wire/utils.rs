//! Access keys, random numbers, and a readable form of raw bytes.

use std::ops::RangeInclusive;
use vstd::prelude::*;
use vstd::string::*;
use crate::trusted::{sample_alphanumeric, sample_range};

verus! {

/// Number of characters in an access key.
pub const ACCESS_KEY_LEN: usize = 10;

/// Whether the character is an ASCII letter or digit.
pub open spec fn is_alphanumeric_char(c: char) -> bool {
    ('0' <= c <= '9') || ('A' <= c <= 'Z') || ('a' <= c <= 'z')
}

/// An access key has ten characters, each an ASCII letter or digit.
pub open spec fn is_access_key(key: Seq<char>) -> bool {
    &&& key.len() == ACCESS_KEY_LEN
    &&& forall|i: int| 0 <= i < key.len() ==> is_alphanumeric_char(#[trigger] key[i])
}

/// Whether `key` has the form of an access key.
pub fn has_key_form(key: &String) -> (b: bool)
    ensures
        b == is_access_key(key@),
{
    broadcast use is_ascii_spec_bytes;

    let text = key.as_str();
    if !text.is_ascii() {
        proof {
            let k = choose|k: int| 0 <= k < text@.len() && !('\0' <= #[trigger] text@[k] <= '\u{7f}');
            assert(!is_alphanumeric_char(text@[k]));
        }
        return false;
    }
    let bytes = text.as_bytes();
    assert(bytes@.len() == text@.len());
    assert(forall|k: int| 0 <= k < bytes@.len() ==> bytes@[k] == #[trigger] text@[k] as u8);
    if bytes.len() != ACCESS_KEY_LEN {
        return false;
    }
    let mut i: usize = 0;
    while i < ACCESS_KEY_LEN
        invariant
            i <= ACCESS_KEY_LEN,
            bytes@.len() == ACCESS_KEY_LEN,
            text@.len() == ACCESS_KEY_LEN,
            text@ == key@,
            forall|k: int| 0 <= k < bytes@.len() ==> bytes@[k] == #[trigger] text@[k] as u8,
            forall|k: int| 0 <= k < bytes@.len() ==> '\0' <= #[trigger] text@[k] <= '\u{7f}',
            forall|k: int| 0 <= k < i ==> is_alphanumeric_char(#[trigger] text@[k]),
        decreases ACCESS_KEY_LEN - i,
    {
        let b = bytes[i];
        let fits = (48 <= b && b <= 57) || (65 <= b && b <= 90) || (97 <= b && b <= 122);
        if !fits {
            assert(!is_alphanumeric_char(text@[i as int]));
            return false;
        }
        assert(is_alphanumeric_char(text@[i as int]));
        i = i + 1;
    }
    true
}

/// Draws a fresh access key at random.
pub fn generate_acess_key() -> (key: String)
    ensures
        is_access_key(key@),
{
    let mut key = String::new();
    let mut i: usize = 0;
    while i < ACCESS_KEY_LEN
        invariant
            i <= ACCESS_KEY_LEN,
            key@.len() == i,
            forall|k: int| 0 <= k < i ==> is_alphanumeric_char(#[trigger] key@[k]),
        decreases ACCESS_KEY_LEN - i,
    {
        let b = sample_alphanumeric();
        key.push(b as char);
        i = i + 1;
    }
    key
}

/// Draws a number at random from a range whose start does not lie above
/// its end; the number lies within the range, both ends included.
pub fn generate_random_number(range: RangeInclusive<i32>) -> (n: i32)
    requires
        range@.start <= range@.end,
    ensures
        range@.start <= n <= range@.end,
{
    sample_range(range)
}

/// The value of the binary digit at place `t` of a byte, counted from the
/// left: 128 for place 0, 1 for place 7.
pub open spec fn digit_weight(t: int) -> int {
    if t == 0 {
        128
    } else if t == 1 {
        64
    } else if t == 2 {
        32
    } else if t == 3 {
        16
    } else if t == 4 {
        8
    } else if t == 5 {
        4
    } else if t == 6 {
        2
    } else {
        1
    }
}

/// The binary digit at place `t` of `b`, counted from the left.
pub open spec fn binary_digit(b: u8, t: int) -> char {
    if b as int / digit_weight(t) % 2 == 1 {
        '1'
    } else {
        '0'
    }
}

/// Number of characters in the binary text of `n` bytes: eight digits for
/// each byte and a space between neighbours.
pub open spec fn binary_text_len(n: nat) -> nat {
    if n == 0 {
        0
    } else {
        (9 * n - 1) as nat
    }
}

/// The binary text of `bytes`.
pub open spec fn binary_text(bytes: Seq<u8>) -> Seq<char> {
    Seq::new(
        binary_text_len(bytes.len()),
        |p: int|
            if p % 9 == 8 {
                ' '
            } else {
                binary_digit(bytes[p / 9], p % 9)
            },
    )
}

/// Writes each byte as eight binary digits, highest first, with a space
/// between neighbours.
pub fn debug_binary(vec: &Vec<u8>) -> (text: String)
    ensures
        text@ == binary_text(vec@),
{
    let mut text = String::new();
    let n = vec.len();
    let mut i: usize = 0;
    while i < n
        invariant
            n == vec@.len(),
            i <= n,
            text@.len() == binary_text_len(i as nat),
            forall|p: int| 0 <= p < text@.len() ==> #[trigger] text@[p] == binary_text(vec@)[p],
        decreases n - i,
    {
        if i > 0 {
            text.push(' ');
        }
        let b = vec[i];
        let mut mask: u8 = 128;
        let mut t: usize = 0;
        while t < 8
            invariant
                n == vec@.len(),
                i < n,
                b == vec@[i as int],
                t <= 8,
                t < 8 ==> mask == digit_weight(t as int),
                text@.len() == 9 * i + t,
                forall|p: int| 0 <= p < text@.len() ==> #[trigger] text@[p] == binary_text(vec@)[p],
            decreases 8 - t,
        {
            let digit = if b / mask % 2 == 1 {
                '1'
            } else {
                '0'
            };
            text.push(digit);
            mask = mask / 2;
            t = t + 1;
        }
        i = i + 1;
    }
    assert(text@ =~= binary_text(vec@));
    text
}

/// The character of a decimal digit.
pub open spec fn digit_of(d: nat) -> char {
    (48 + d) as char
}

/// The decimal text of a number: no sign, no leading zero, `"0"` for zero.
pub open spec fn decimal(n: nat) -> Seq<char>
    decreases n,
{
    if n < 10 {
        seq![digit_of(n)]
    } else {
        decimal(n / 10).push(digit_of(n % 10))
    }
}

fn digit_char(d: u64) -> (c: char)
    requires
        d < 10,
    ensures
        c == digit_of(d as nat),
{
    (48u8 + d as u8) as char
}

/// Writes a number in decimal.
pub fn decimal_text(n: u64) -> (text: String)
    ensures
        text@ == decimal(n as nat),
{
    let mut digits: Vec<char> = Vec::new();
    let mut rest = n;
    while rest >= 10
        invariant
            decimal(n as nat) =~= decimal(rest as nat) + digits@.reverse(),
        decreases rest,
    {
        let ghost before = digits@;
        digits.push(digit_char(rest % 10));
        proof {
            let d = digit_of((rest % 10) as nat);
            assert(digits@.reverse() =~= seq![d] + before.reverse());
            assert(decimal(rest as nat) =~= decimal((rest / 10) as nat).push(d));
        }
        rest = rest / 10;
    }
    let mut text = String::new();
    text.push(digit_char(rest));
    let mut i = digits.len();
    while i > 0
        invariant
            i <= digits@.len(),
            rest < 10,
            text@ =~= seq![digit_of(rest as nat)] + digits@.reverse().take(digits@.len() - i),
        decreases i,
    {
        i = i - 1;
        text.push(digits[i]);
    }
    assert(digits@.reverse().take(digits@.len() as int) =~= digits@.reverse());
    text
}

} // verus!
