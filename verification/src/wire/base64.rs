//! The link's base-64 dialect: the alphabet `a-z A-Z 0-9 + /`, in that order,
//! and no padding. One byte becomes two glyphs, two bytes three, three bytes four.

use vstd::prelude::*;
use vstd::string::*;
use crate::wire::error::ProtocolError;

verus! {

/// The glyph that stands for the six-bit value `v`.
pub open spec fn glyph_of(v: u8) -> char {
    if v < 26 {
        (97 + v) as char
    } else if v < 52 {
        (39 + v) as char
    } else if v < 62 {
        (v - 4) as char
    } else if v == 62 {
        '+'
    } else {
        '/'
    }
}

/// The six-bit value that `c` stands for, if `c` is a glyph of the alphabet.
pub open spec fn value_of(c: char) -> Option<u8> {
    if 'a' <= c <= 'z' {
        Some((c as u32 - 97) as u8)
    } else if 'A' <= c <= 'Z' {
        Some((c as u32 - 39) as u8)
    } else if '0' <= c <= '9' {
        Some((c as u32 + 4) as u8)
    } else if c == '+' {
        Some(62u8)
    } else if c == '/' {
        Some(63u8)
    } else {
        None
    }
}

/// Number of glyphs that `n` bytes encode to.
pub open spec fn encoded_len(n: nat) -> nat {
    n / 3 * 4 + if n % 3 == 0 {
        0
    } else {
        n % 3 + 1
    }
}

/// Number of bytes that `m` glyphs decode to, for `m` not of the form `4k + 1`.
pub open spec fn decoded_len(m: nat) -> nat {
    m / 4 * 3 + if m % 4 == 0 {
        0
    } else {
        (m % 4 - 1) as nat
    }
}

/// The byte at `i`, and zero past the end: the last group is filled up with zero bits.
pub open spec fn byte_or_zero(data: Seq<u8>, i: int) -> u8 {
    if 0 <= i < data.len() {
        data[i]
    } else {
        0
    }
}

/// The six-bit value at position `k` of the encoding of `data`.
pub open spec fn sextet(data: Seq<u8>, k: int) -> u8 {
    let j = k / 4 * 3;
    let b1 = byte_or_zero(data, j);
    let b2 = byte_or_zero(data, j + 1);
    let b3 = byte_or_zero(data, j + 2);
    if k % 4 == 0 {
        b1 >> 2
    } else if k % 4 == 1 {
        ((b1 & 3) << 4) | (b2 >> 4)
    } else if k % 4 == 2 {
        ((b2 & 15) << 2) | (b3 >> 6)
    } else {
        b3 & 63
    }
}

/// The text that `data` encodes to.
pub open spec fn b64_encode(data: Seq<u8>) -> Seq<char> {
    Seq::new(encoded_len(data.len()), |k: int| glyph_of(sextet(data, k)))
}

/// The value of the glyph at `k`, and zero where there is no glyph of the alphabet.
pub open spec fn value_or_zero(text: Seq<char>, k: int) -> u8 {
    if 0 <= k < text.len() && value_of(text[k]) is Some {
        value_of(text[k])->0
    } else {
        0
    }
}

/// The byte at position `i` of the decoding of `text`.
pub open spec fn octet(text: Seq<char>, i: int) -> u8 {
    let g = i / 3 * 4;
    let v1 = value_or_zero(text, g);
    let v2 = value_or_zero(text, g + 1);
    let v3 = value_or_zero(text, g + 2);
    let v4 = value_or_zero(text, g + 3);
    if i % 3 == 0 {
        (v1 << 2) | (v2 >> 4)
    } else if i % 3 == 1 {
        ((v2 & 15) << 4) | (v3 >> 2)
    } else {
        ((v3 & 3) << 6) | v4
    }
}

/// A text can be decoded when its length is not of the form `4k + 1` and
/// every glyph belongs to the alphabet.
pub open spec fn is_b64_text(text: Seq<char>) -> bool {
    &&& text.len() % 4 != 1
    &&& forall|k: int| 0 <= k < text.len() ==> (#[trigger] value_of(text[k])) is Some
}

/// The bytes that `text` decodes to, if it can be decoded.
pub open spec fn b64_decode(text: Seq<char>) -> Option<Seq<u8>> {
    if is_b64_text(text) {
        Some(Seq::new(decoded_len(text.len()), |i: int| octet(text, i)))
    } else {
        None
    }
}

fn glyph(v: u8) -> (c: char)
    ensures
        c == glyph_of(v),
{
    if v < 26 {
        (97u8 + v) as char
    } else if v < 52 {
        (39u8 + v) as char
    } else if v < 62 {
        (v - 4u8) as char
    } else if v == 62 {
        '+'
    } else {
        '/'
    }
}

fn glyph_value(b: u8) -> (v: Option<u8>)
    ensures
        v == value_of(b as char),
        v is Some ==> v->0 < 64,
{
    if 97 <= b && b <= 122 {
        Some(b - 97)
    } else if 65 <= b && b <= 90 {
        Some(b - 39)
    } else if 48 <= b && b <= 57 {
        Some(b + 4)
    } else if b == 43 {
        Some(62)
    } else if b == 47 {
        Some(63)
    } else {
        None
    }
}

/// Encodes `data` in the link's base-64 dialect.
pub fn encode_b64(data: &[u8]) -> (text: String)
    ensures
        text@ == b64_encode(data@),
{
    let mut output = String::new();
    let n = data.len();
    let groups = n / 3;
    let mut q: usize = 0;
    while q < groups
        invariant
            n == data@.len(),
            groups == n / 3,
            q <= groups,
            output@ =~= Seq::new((4 * q) as nat, |k: int| glyph_of(sextet(data@, k))),
        decreases groups - q,
    {
        let b1 = data[3 * q];
        let b2 = data[3 * q + 1];
        let b3 = data[3 * q + 2];
        output.push(glyph(b1 >> 2));
        output.push(glyph(((b1 & 3) << 4) | (b2 >> 4)));
        output.push(glyph(((b2 & 15) << 2) | (b3 >> 6)));
        output.push(glyph(b3 & 63));
        q = q + 1;
    }
    if n % 3 == 1 {
        let b1 = data[3 * groups];
        output.push(glyph(b1 >> 2));
        output.push(glyph(((b1 & 3) << 4) | (0u8 >> 4)));
    } else if n % 3 == 2 {
        let b1 = data[3 * groups];
        let b2 = data[3 * groups + 1];
        output.push(glyph(b1 >> 2));
        output.push(glyph(((b1 & 3) << 4) | (b2 >> 4)));
        output.push(glyph(((b2 & 15) << 2) | (0u8 >> 6)));
    }
    output
}

/// Decodes a text of the link's base-64 dialect.
///
/// The text is refused when its length is of the form `4k + 1` or when it
/// holds a glyph outside the alphabet; every other text is decoded.
pub fn decode_b64(s: &str) -> (r: Result<Vec<u8>, ProtocolError>)
    ensures
        match b64_decode(s@) {
            Some(bytes) => r is Ok && r->Ok_0@ == bytes,
            None => r == Err::<Vec<u8>, ProtocolError>(ProtocolError::BadBase64),
        },
        s@.len() % 4 == 1 ==> r == Err::<Vec<u8>, ProtocolError>(ProtocolError::BadBase64),
{
    broadcast use is_ascii_spec_bytes;

    if !s.is_ascii() {
        proof {
            let k = choose|k: int| 0 <= k < s@.len() && !('\0' <= #[trigger] s@[k] <= '\u{7f}');
            assert(value_of(s@[k]) is None);
        }
        return Err(ProtocolError::BadBase64);
    }
    let text = s.as_bytes();
    let m = text.len();
    assert(m == s@.len());
    assert(forall|k: int| 0 <= k < m ==> text@[k] == #[trigger] s@[k] as u8);
    assert(forall|k: int| 0 <= k < m ==> text@[k] as char == #[trigger] s@[k]);
    if m % 4 == 1 {
        return Err(ProtocolError::BadBase64);
    }
    let mut output: Vec<u8> = Vec::new();
    let groups = m / 4;
    let mut q: usize = 0;
    while q < groups
        invariant
            m == s@.len(),
            m == text@.len(),
            groups == m / 4,
            q <= groups,
            forall|k: int| 0 <= k < m ==> text@[k] as char == #[trigger] s@[k],
            forall|k: int| 0 <= k < 4 * q ==> (#[trigger] value_of(s@[k])) is Some,
            output@ =~= Seq::new((3 * q) as nat, |i: int| octet(s@, i)),
        decreases groups - q,
    {
        let g1 = glyph_value(text[4 * q]);
        let g2 = glyph_value(text[4 * q + 1]);
        let g3 = glyph_value(text[4 * q + 2]);
        let g4 = glyph_value(text[4 * q + 3]);
        match (g1, g2, g3, g4) {
            (Some(v1), Some(v2), Some(v3), Some(v4)) => {
                assert(value_of(s@[4 * q + 0]) == Some(v1));
                assert(value_of(s@[4 * q + 1]) == Some(v2));
                assert(value_of(s@[4 * q + 2]) == Some(v3));
                assert(value_of(s@[4 * q + 3]) == Some(v4));
                output.push((v1 << 2) | (v2 >> 4));
                output.push(((v2 & 15) << 4) | (v3 >> 2));
                output.push(((v3 & 3) << 6) | v4);
            },
            _ => {
                assert(value_of(s@[4 * q + 0]) is None || value_of(s@[4 * q + 1]) is None
                    || value_of(s@[4 * q + 2]) is None || value_of(s@[4 * q + 3]) is None);
                return Err(ProtocolError::BadBase64);
            },
        }
        q = q + 1;
    }
    if m % 4 >= 2 {
        let g1 = glyph_value(text[4 * groups]);
        let g2 = glyph_value(text[4 * groups + 1]);
        let g3 = if m % 4 == 3 {
            glyph_value(text[4 * groups + 2])
        } else {
            Some(0u8)
        };
        match (g1, g2, g3) {
            (Some(v1), Some(v2), Some(v3)) => {
                assert(value_of(s@[4 * groups + 0]) == Some(v1));
                assert(value_of(s@[4 * groups + 1]) == Some(v2));
                assert(m % 4 == 3 ==> value_of(s@[4 * groups + 2]) == Some(v3));
                output.push((v1 << 2) | (v2 >> 4));
                if m % 4 == 3 {
                    output.push(((v2 & 15) << 4) | (v3 >> 2));
                }
            },
            _ => {
                assert(value_of(s@[4 * groups + 0]) is None || value_of(s@[4 * groups + 1])
                    is None || value_of(s@[4 * groups + 2]) is None);
                return Err(ProtocolError::BadBase64);
            },
        }
    }
    assert(is_b64_text(s@)) by {
        assert forall|k: int| 0 <= k < s@.len() implies (#[trigger] value_of(s@[k])) is Some by {
            if k >= 4 * groups {
                assert(k == 4 * groups || k == 4 * groups + 1 || k == 4 * groups + 2);
            }
        }
    }
    Ok(output)
}

proof fn lemma_sextet_is_small(b1: u8, b2: u8, b3: u8)
    ensures
        b1 >> 2 < 64,
        ((b1 & 3) << 4) | (b2 >> 4) < 64,
        ((b2 & 15) << 2) | (b3 >> 6) < 64,
        b3 & 63 < 64,
{
    assert(b1 >> 2 < 64) by (bit_vector);
    assert(((b1 & 3) << 4) | (b2 >> 4) < 64) by (bit_vector);
    assert(((b2 & 15) << 2) | (b3 >> 6) < 64) by (bit_vector);
    assert(b3 & 63 < 64) by (bit_vector);
}

proof fn lemma_sextets_rebuild_bytes(b1: u8, b2: u8, b3: u8)
    ensures
        ((b1 >> 2) << 2) | ((((b1 & 3) << 4) | (b2 >> 4)) >> 4) == b1,
        (((((b1 & 3) << 4) | (b2 >> 4)) & 15) << 4) | ((((b2 & 15) << 2) | (b3 >> 6)) >> 2) == b2,
        (((((b2 & 15) << 2) | (b3 >> 6)) & 3) << 6) | (b3 & 63) == b3,
{
    assert(((b1 >> 2) << 2) | ((((b1 & 3) << 4) | (b2 >> 4)) >> 4) == b1) by (bit_vector);
    assert((((((b1 & 3) << 4) | (b2 >> 4)) & 15) << 4) | ((((b2 & 15) << 2) | (b3 >> 6)) >> 2)
        == b2) by (bit_vector);
    assert((((((b2 & 15) << 2) | (b3 >> 6)) & 3) << 6) | (b3 & 63) == b3) by (bit_vector);
}

/// Every six-bit value is the value of its own glyph.
pub proof fn lemma_glyph_value(v: u8)
    requires
        v < 64,
    ensures
        value_of(glyph_of(v)) == Some(v),
{
}

/// Every glyph of an encoding is the glyph of a six-bit value, and that value
/// is read back from it.
pub proof fn lemma_encoding_value(data: Seq<u8>, k: int)
    requires
        0 <= k < encoded_len(data.len()),
    ensures
        value_or_zero(b64_encode(data), k) == sextet(data, k),
        value_of(b64_encode(data)[k]) is Some,
{
    let j = k / 4 * 3;
    lemma_sextet_is_small(
        byte_or_zero(data, j),
        byte_or_zero(data, j + 1),
        byte_or_zero(data, j + 2),
    );
    lemma_glyph_value(sextet(data, k));
}

/// Decoding undoes encoding: whatever bytes are encoded, the text can be
/// decoded, and decoding gives the same bytes back.
pub proof fn lemma_b64_round_trip(data: Seq<u8>)
    ensures
        b64_decode(b64_encode(data)) == Some(data),
{
    let text = b64_encode(data);
    let n = data.len();
    assert(text.len() == encoded_len(n));
    assert(text.len() % 4 != 1);
    assert forall|k: int| 0 <= k < text.len() implies (#[trigger] value_of(text[k])) is Some by {
        lemma_encoding_value(data, k);
    }
    assert(is_b64_text(text));
    assert(decoded_len(text.len()) == n);
    let bytes = b64_decode(text)->0;
    assert forall|i: int| 0 <= i < n implies bytes[i] == data[i] by {
        let g = i / 3 * 4;
        let j = g / 4 * 3;
        assert(j == i / 3 * 3);
        lemma_sextets_rebuild_bytes(
            byte_or_zero(data, j),
            byte_or_zero(data, j + 1),
            byte_or_zero(data, j + 2),
        );
        if i % 3 == 0 {
            lemma_encoding_value(data, g);
            lemma_encoding_value(data, g + 1);
        } else if i % 3 == 1 {
            lemma_encoding_value(data, g + 1);
            lemma_encoding_value(data, g + 2);
        } else {
            lemma_encoding_value(data, g + 2);
            lemma_encoding_value(data, g + 3);
        }
    }
    assert(bytes =~= data);
}

} // verus!
