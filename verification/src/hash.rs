//! Password hashing: passwords are never transmitted in the clear, only as
//! the lowercase hexadecimal rendering of their MD5 digest.

use vstd::prelude::*;

use crate::digits::push_char;

verus! {

/// The MD5 digest of a byte sequence, as computed by the `md-5` crate.
pub uninterp spec fn md5_of(bytes: Seq<u8>) -> Seq<u8>;

/// Relies on `md5::Md5` of the `md-5` crate: the digest is a function of the
/// input bytes alone, and is always 16 bytes long.
#[verifier::external_body]
fn md5_digest(input: &[u8]) -> (r: Vec<u8>)
    ensures
        r@ == md5_of(input@),
        r@.len() == 16,
{
    <md5::Md5 as md5::Digest>::digest(input).to_vec()
}

/// The lowercase hexadecimal character for a digit value below sixteen.
pub open spec fn lower_hex_digit(d: nat) -> char
    recommends
        d < 16,
{
    if d < 10 {
        ((48 + d) as u8) as char
    } else {
        ((87 + d) as u8) as char
    }
}

/// Whether `c` is a lowercase hexadecimal character.
pub open spec fn is_lower_hex_char(c: char) -> bool {
    ('0' <= c && c <= '9') || ('a' <= c && c <= 'f')
}

/// The lowercase hexadecimal rendering of a byte sequence, two characters
/// per byte, high nibble first.
pub open spec fn hex_of(bytes: Seq<u8>) -> Seq<char> {
    Seq::new(
        2 * bytes.len(),
        |i: int|
            if i % 2 == 0 {
                lower_hex_digit((bytes[i / 2] >> 4) as nat)
            } else {
                lower_hex_digit((bytes[i / 2] & 0x0f) as nat)
            },
    )
}

/// The hashed form in which a password is transmitted: the MD5 digest of its
/// UTF-8 bytes, rendered as lowercase hexadecimal.
pub open spec fn md5_hex(s: Seq<char>) -> Seq<char> {
    hex_of(md5_of(vstd::utf8::encode_utf8(s)))
}

/// Renders a byte sequence as lowercase hexadecimal.
fn to_lower_hex(bytes: &Vec<u8>) -> (r: String)
    ensures
        r@ == hex_of(bytes@),
{
    let mut out = String::new();
    let n = bytes.len();
    for i in 0..n
        invariant
            n == bytes@.len(),
            out@.len() == 2 * i,
            forall|j: int| 0 <= j < out@.len() ==> out@[j] == hex_of(bytes@)[j],
    {
        let b = bytes[i];
        assert((b >> 4) < 16 && (b & 0x0f) < 16) by (bit_vector);
        push_char(&mut out, hex_char_of(b >> 4));
        push_char(&mut out, hex_char_of(b & 0x0f));
        assert(forall|j: int| 0 <= j < out@.len() ==> out@[j] == hex_of(bytes@)[j]);
    }
    assert(out@ =~= hex_of(bytes@)) by {
        assert(out@.len() == hex_of(bytes@).len());
    }
    out
}

/// The lowercase hexadecimal character for `d`, which must be below sixteen.
fn hex_char_of(d: u8) -> (c: char)
    requires
        d < 16,
    ensures
        c == lower_hex_digit(d as nat),
{
    if d < 10 {
        (48 + d) as char
    } else {
        (87 + d) as char
    }
}

/// Digit values below sixteen render as lowercase hexadecimal characters.
proof fn lemma_hex_digit_is_lower_hex(d: nat)
    requires
        d < 16,
    ensures
        is_lower_hex_char(lower_hex_digit(d)),
{
}

/// Hashes a password for transmission: the MD5 digest of its UTF-8 bytes as a
/// 32-character lowercase hexadecimal string. A pure function of the input:
/// equal passwords always hash to the same string.
pub fn serialize_md5(input: &str) -> (r: String)
    ensures
        r@ == md5_hex(input@),
        r@.len() == 32,
        forall|i: int| 0 <= i < r@.len() ==> is_lower_hex_char(#[trigger] r@[i]),
{
    let digest = md5_digest(input.as_bytes());
    let r = to_lower_hex(&digest);
    proof {
        assert forall|i: int| 0 <= i < r@.len() implies is_lower_hex_char(#[trigger] r@[i]) by {
            let b = md5_of(vstd::utf8::encode_utf8(input@))[i / 2];
            assert((b >> 4) < 16 && (b & 0x0f) < 16) by (bit_vector);
            if i % 2 == 0 {
                lemma_hex_digit_is_lower_hex((b >> 4) as nat);
            } else {
                lemma_hex_digit_is_lower_hex((b & 0x0f) as nat);
            }
        }
    }
    r
}

} // verus!
