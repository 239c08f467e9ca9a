//! Hexadecimal decoding into fixed-size byte buffers, and encoding back.
//!
//! Every field of an announcement arrives as a hex string of a known byte
//! length (32, 48 or 96 bytes). Decoding accepts both letter cases and
//! fails when the length is off or a character is outside the alphabet.

use vstd::prelude::*;

use crate::errors::DrandError;

verus! {

/// Whether `c` is a hexadecimal digit, either letter case.
pub open spec fn is_hex_digit(c: char) -> bool {
    ('0' as u32 <= c as u32 && c as u32 <= '9' as u32)
    || ('a' as u32 <= c as u32 && c as u32 <= 'f' as u32)
    || ('A' as u32 <= c as u32 && c as u32 <= 'F' as u32)
}

/// The numeric value of a hexadecimal digit; 0 for any other character.
pub open spec fn hex_digit_value(c: char) -> u8 {
    if '0' as u32 <= c as u32 && c as u32 <= '9' as u32 {
        (c as u32 - '0' as u32) as u8
    } else if 'a' as u32 <= c as u32 && c as u32 <= 'f' as u32 {
        (c as u32 - 'a' as u32 + 10) as u8
    } else if 'A' as u32 <= c as u32 && c as u32 <= 'F' as u32 {
        (c as u32 - 'A' as u32 + 10) as u8
    } else {
        0u8
    }
}

/// Whether every character of `s` is a hexadecimal digit.
pub open spec fn all_hex_digits(s: Seq<char>) -> bool {
    forall|i: int| 0 <= i < s.len() ==> is_hex_digit(#[trigger] s[i])
}

/// The bytes a hex string stands for: each pair of digits one byte, the
/// first digit the high nibble.
pub open spec fn hex_decoded(s: Seq<char>) -> Seq<u8>
    recommends
        s.len() % 2 == 0,
        all_hex_digits(s),
{
    Seq::new((s.len() / 2) as nat, |i: int|
        (16 * hex_digit_value(s[2 * i]) + hex_digit_value(s[2 * i + 1])) as u8)
}

/// The lower-case hexadecimal digit for a value below 16.
pub open spec fn hex_digit_char(v: u8) -> char
    recommends
        v < 16,
{
    if v < 10 {
        ('0' as u8 + v) as char
    } else {
        ('a' as u8 + (v - 10)) as char
    }
}

/// The lower-case hex string that stands for `b`: two digits per byte.
pub open spec fn hex_encoded(b: Seq<u8>) -> Seq<char> {
    Seq::new(2 * b.len(), |i: int|
        if i % 2 == 0 {
            hex_digit_char(b[i / 2] / 16)
        } else {
            hex_digit_char(b[i / 2] % 16)
        })
}

/// Decode one hexadecimal digit, either letter case.
pub fn decode_digit(c: char) -> (r: Option<u8>)
    ensures
        r is Some <==> is_hex_digit(c),
        r matches Some(v) ==> v == hex_digit_value(c) && v < 16,
{
    let u = c as u32;
    if '0' as u32 <= u && u <= '9' as u32 {
        Some((u - '0' as u32) as u8)
    } else if 'a' as u32 <= u && u <= 'f' as u32 {
        Some((u - 'a' as u32 + 10) as u8)
    } else if 'A' as u32 <= u && u <= 'F' as u32 {
        Some((u - 'A' as u32 + 10) as u8)
    } else {
        None
    }
}

/// Decode a hex string into exactly `N` bytes.
///
/// Succeeds exactly when `s` has `2 * N` characters, all hexadecimal;
/// any other input is a decoding failure, so no partial result exists.
pub fn decode_hex_fixed<const N: usize>(s: &str) -> (r: Result<[u8; N], DrandError>)
    ensures
        r is Ok <==> s@.len() == 2 * N && all_hex_digits(s@),
        r matches Ok(b) ==> b@ == hex_decoded(s@),
        r is Err ==> r == Err::<[u8; N], DrandError>(DrandError::Decoding),
{
    let len = s.unicode_len();
    if len % 2 != 0 || len / 2 != N {
        return Err(DrandError::Decoding);
    }
    let mut out: [u8; N] = [0u8; N];
    let mut i: usize = 0;
    while i < N
        invariant
            0 <= i <= N,
            s@.len() == 2 * N,
            2 * N <= usize::MAX,
            forall|k: int| 0 <= k < 2 * i ==> is_hex_digit(#[trigger] s@[k]),
            forall|j: int| 0 <= j < i ==> out@[j] == (16 * hex_digit_value(s@[2 * j])
                + hex_digit_value(s@[2 * j + 1])) as u8,
        decreases N - i,
    {
        let c_hi = s.get_char(2 * i);
        let c_lo = s.get_char(2 * i + 1);
        match (decode_digit(c_hi), decode_digit(c_lo)) {
            (Some(h), Some(l)) => {
                out[i] = 16 * h + l;
            }
            _ => {
                return Err(DrandError::Decoding);
            }
        }
        proof {
            assert(is_hex_digit(s@[2 * (i as int)]));
            assert(is_hex_digit(s@[2 * (i as int) + 1]));
        }
        i += 1;
    }
    proof {
        assert(out@ =~= hex_decoded(s@));
    }
    Ok(out)
}

/// Relies on `String::push`: it appends exactly the given character.
#[verifier::external_body]
fn push_char(s: &mut String, c: char)
    ensures
        final(s)@ == old(s)@.push(c),
{
    s.push(c);
}

/// Encode bytes as a lower-case hex string, two digits per byte.
pub fn encode_hex(b: &[u8]) -> (r: String)
    ensures
        r@ == hex_encoded(b@),
{
    let mut r = String::new();
    let mut i: usize = 0;
    while i < b.len()
        invariant
            0 <= i <= b@.len(),
            r@.len() == 2 * i,
            forall|k: int| 0 <= k < 2 * i ==> r@[k] == hex_encoded(b@)[k],
        decreases b@.len() - i,
    {
        let byte = b[i];
        push_char(&mut r, hex_digit_exec(byte / 16));
        push_char(&mut r, hex_digit_exec(byte % 16));
        i += 1;
    }
    proof {
        assert(r@ =~= hex_encoded(b@));
    }
    r
}

/// The lower-case hex digit for a value below 16.
fn hex_digit_exec(v: u8) -> (c: char)
    requires
        v < 16,
    ensures
        c == hex_digit_char(v),
{
    if v < 10 {
        ('0' as u8 + v) as char
    } else {
        ('a' as u8 + (v - 10)) as char
    }
}

/// Hex round trip: decoding the encoding of any byte string gives it back.
///
/// The encoding is well-formed (even length, all digits), so every encoded
/// buffer is accepted by `decode_hex_fixed` of the matching size.
pub proof fn lemma_hex_round_trip(b: Seq<u8>)
    ensures
        hex_encoded(b).len() == 2 * b.len(),
        all_hex_digits(hex_encoded(b)),
        hex_decoded(hex_encoded(b)) == b,
{
    let e = hex_encoded(b);
    assert forall|k: int| 0 <= k < e.len() implies is_hex_digit(#[trigger] e[k]) by {
        if k % 2 == 0 {
            lemma_hex_digit_char_value(b[k / 2] / 16);
        } else {
            lemma_hex_digit_char_value(b[k / 2] % 16);
        }
    }
    assert forall|i: int| 0 <= i < b.len() implies hex_decoded(e)[i] == b[i] by {
        lemma_hex_digit_char_value(b[i] / 16);
        lemma_hex_digit_char_value(b[i] % 16);
        assert(e[2 * i] == hex_digit_char(b[i] / 16));
        assert(e[2 * i + 1] == hex_digit_char(b[i] % 16));
        assert(16 * (b[i] / 16) + b[i] % 16 == b[i]);
    }
    assert(hex_decoded(e) =~= b);
}

/// A hex digit character decodes back to the value it encodes.
proof fn lemma_hex_digit_char_value(v: u8)
    requires
        v < 16,
    ensures
        is_hex_digit(hex_digit_char(v)),
        hex_digit_value(hex_digit_char(v)) == v,
{
}

} // verus!
