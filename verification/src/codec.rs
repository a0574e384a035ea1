//! Byte encodings used to talk to the upstream servers: the MD5 digest behind
//! request tokens, standard Base64 for HTTP basic authentication, and the
//! percent-encoding of form values.

use base64::Engine;
use vstd::prelude::*;
use crate::text::hex_digit_upper;
use vstd::string::StringSliceAdditionalSpecFns;

verus! {

// ---------------------------------------------------------------------------
// MD5
// ---------------------------------------------------------------------------

/// The 16-byte MD5 digest of `data`, as `md5::compute` gives it.
pub uninterp spec fn md5_spec(data: Seq<u8>) -> Seq<u8>;

/// `md5::compute(data)`: the contract claims that the digest is 16 bytes long
/// (the crate's `Digest` is a `[u8; 16]`) and that it is the same for the same
/// input; the digest algorithm itself is not restated.
#[verifier::external_body]
pub(crate) fn md5_digest(data: &[u8]) -> (r: Vec<u8>)
    ensures
        r@ == md5_spec(data@),
        r@.len() == 16,
{
    md5::compute(data).0.to_vec()
}

// ---------------------------------------------------------------------------
// Base64
// ---------------------------------------------------------------------------

/// The character of the standard Base64 alphabet for `v < 64`.
pub open spec fn base64_char(v: nat) -> char {
    if v < 26 {
        (65 + v) as char
    } else if v < 52 {
        (97 + (v - 26)) as char
    } else if v < 62 {
        (48 + (v - 52)) as char
    } else if v == 62 {
        '+'
    } else {
        '/'
    }
}

/// Standard Base64 with `=` padding (RFC 4648, section 4): each group of three
/// bytes becomes four characters; a final group of one or two bytes becomes
/// two or three characters followed by padding.
pub open spec fn base64_spec(d: Seq<u8>) -> Seq<char>
    decreases d.len(),
{
    if d.len() == 0 {
        Seq::<char>::empty()
    } else if d.len() == 1 {
        seq![
            base64_char(d[0] as nat / 4),
            base64_char((d[0] as nat % 4) * 16),
            '=',
            '=',
        ]
    } else if d.len() == 2 {
        seq![
            base64_char(d[0] as nat / 4),
            base64_char((d[0] as nat % 4) * 16 + d[1] as nat / 16),
            base64_char((d[1] as nat % 16) * 4),
            '=',
        ]
    } else {
        seq![
            base64_char(d[0] as nat / 4),
            base64_char((d[0] as nat % 4) * 16 + d[1] as nat / 16),
            base64_char((d[1] as nat % 16) * 4 + d[2] as nat / 64),
            base64_char(d[2] as nat % 64),
        ] + base64_spec(d.skip(3))
    }
}

/// The value of a character of the standard Base64 alphabet (0 for any
/// other character).
pub open spec fn base64_value(c: char) -> nat {
    let n = c as u32;
    if 65 <= n <= 90 {
        (n - 65) as nat
    } else if 97 <= n <= 122 {
        (n - 97 + 26) as nat
    } else if 48 <= n <= 57 {
        (n - 48 + 52) as nat
    } else if c == '+' {
        62
    } else if c == '/' {
        63
    } else {
        0
    }
}

/// Decoding of standard Base64 with `=` padding: each group of four
/// characters gives three bytes, or one byte where it ends in `==` and two
/// where it ends in a single `=`.
pub open spec fn base64_decode_spec(s: Seq<char>) -> Seq<u8>
    decreases s.len(),
{
    if s.len() < 4 {
        Seq::<u8>::empty()
    } else {
        let v0 = base64_value(s[0]);
        let v1 = base64_value(s[1]);
        let v2 = base64_value(s[2]);
        let v3 = base64_value(s[3]);
        let b0 = (v0 * 4 + v1 / 16) as u8;
        let b1 = ((v1 % 16) * 16 + v2 / 4) as u8;
        let b2 = ((v2 % 4) * 64 + v3) as u8;
        if s[2] == '=' {
            seq![b0]
        } else if s[3] == '=' {
            seq![b0, b1]
        } else {
            seq![b0, b1, b2] + base64_decode_spec(s.skip(4))
        }
    }
}

proof fn lemma_base64_char_value(v: nat)
    requires
        v < 64,
    ensures
        base64_value(base64_char(v)) == v,
        base64_char(v) != '=',
{
    if v < 26 {
        assert(((65 + v) as char) as u32 == 65 + v);
    } else if v < 52 {
        assert(((97 + (v - 26)) as char) as u32 == 97 + (v - 26));
    } else if v < 62 {
        assert(((48 + (v - 52)) as char) as u32 == 48 + (v - 52));
    }
}

proof fn lemma_base64_group(x: u8, y: u8, z: u8)
    ensures
        ((x as nat / 4) * 4 + ((x as nat % 4) * 16 + y as nat / 16) / 16) as u8 == x,
        ((((x as nat % 4) * 16 + y as nat / 16) % 16) * 16 + ((y as nat % 16) * 4 + z as nat / 64) / 4)
            as u8 == y,
        ((((y as nat % 16) * 4 + z as nat / 64) % 4) * 64 + z as nat % 64) as u8 == z,
        x as nat / 4 < 64,
        (x as nat % 4) * 16 + y as nat / 16 < 64,
        (y as nat % 16) * 4 + z as nat / 64 < 64,
        z as nat % 64 < 64,
        (x as nat % 4) * 16 < 64,
        (y as nat % 16) * 4 < 64,
{
    assert(((x / 4) * 4 + ((x % 4) * 16 + y / 16) / 16) == x) by (bit_vector);
    assert(((((x % 4) * 16 + y / 16) % 16) * 16 + ((y % 16) * 4 + z / 64) / 4) == y) by (bit_vector);
    assert(((((y % 16) * 4 + z / 64) % 4) * 64 + z % 64) == z) by (bit_vector);
    assert((x % 4) * 16 + y / 16 < 64) by (bit_vector);
    assert((y % 16) * 4 + z / 64 < 64) by (bit_vector);
    assert(x / 4 < 64) by (bit_vector);
    assert((x % 4) * 16 < 64) by (bit_vector);
    assert((y % 16) * 4 < 64) by (bit_vector);
}

/// Decoding the Base64 text of some bytes gives the bytes back, and the text
/// has four characters for every started group of three bytes.
pub proof fn lemma_base64_round_trip(d: Seq<u8>)
    ensures
        base64_decode_spec(base64_spec(d)) == d,
        base64_spec(d).len() == 4 * ((d.len() + 2) / 3),
    decreases d.len(),
{
    let e = base64_spec(d);
    if d.len() == 0 {
    } else if d.len() == 1 {
        lemma_base64_group(d[0], 0, 0);
        lemma_base64_char_value(d[0] as nat / 4);
        lemma_base64_char_value((d[0] as nat % 4) * 16);
        assert(base64_decode_spec(e) =~= d);
    } else if d.len() == 2 {
        lemma_base64_group(d[0], d[1], 0);
        lemma_base64_char_value(d[0] as nat / 4);
        lemma_base64_char_value((d[0] as nat % 4) * 16 + d[1] as nat / 16);
        lemma_base64_char_value((d[1] as nat % 16) * 4);
        assert(base64_decode_spec(e) =~= d);
    } else {
        lemma_base64_group(d[0], d[1], d[2]);
        lemma_base64_char_value(d[0] as nat / 4);
        lemma_base64_char_value((d[0] as nat % 4) * 16 + d[1] as nat / 16);
        lemma_base64_char_value((d[1] as nat % 16) * 4 + d[2] as nat / 64);
        lemma_base64_char_value(d[2] as nat % 64);
        lemma_base64_round_trip(d.skip(3));
        let head = seq![
            base64_char(d[0] as nat / 4),
            base64_char((d[0] as nat % 4) * 16 + d[1] as nat / 16),
            base64_char((d[1] as nat % 16) * 4 + d[2] as nat / 64),
            base64_char(d[2] as nat % 64),
        ];
        assert(e == head + base64_spec(d.skip(3)));
        assert(e.skip(4) =~= base64_spec(d.skip(3)));
        assert(d =~= seq![d[0], d[1], d[2]] + d.skip(3));
        assert(base64_decode_spec(e) =~= d);
    }
}

/// `base64::engine::general_purpose::STANDARD.encode(data)`: the contract
/// claims the standard alphabet with padding, as the crate documents it. The
/// crate panics when the output length overflows `usize`, which `requires`
/// rules out.
#[verifier::external_body]
pub(crate) fn base64_encode(data: &[u8]) -> (r: String)
    requires
        data@.len() / 3 * 4 + 4 <= usize::MAX,
    ensures
        r@ == base64_spec(data@),
{
    base64::engine::general_purpose::STANDARD.encode(data)
}

// ---------------------------------------------------------------------------
// Percent-encoding
// ---------------------------------------------------------------------------

/// Whether `b` is an ASCII letter or digit.
pub open spec fn is_ascii_alphanumeric_byte(b: u8) -> bool {
    (48 <= b <= 57) || (65 <= b <= 90) || (97 <= b <= 122)
}

/// The percent-encoding of `bytes` with the `NON_ALPHANUMERIC` set: an ASCII
/// letter or digit stays as it is, every other byte becomes `%` and two
/// upper-case hexadecimal digits.
pub open spec fn percent_encode_spec(bytes: Seq<u8>) -> Seq<char>
    decreases bytes.len(),
{
    if bytes.len() == 0 {
        Seq::<char>::empty()
    } else {
        let b = bytes.last();
        let tail = if is_ascii_alphanumeric_byte(b) {
            seq![b as char]
        } else {
            seq!['%', hex_digit_upper(b as nat / 16), hex_digit_upper(b as nat % 16)]
        };
        percent_encode_spec(bytes.drop_last()) + tail
    }
}

/// `percent_encoding::utf8_percent_encode(s, NON_ALPHANUMERIC).to_string()`:
/// the contract claims the encoding that the crate documents for that set,
/// applied to the UTF-8 bytes of `s`.
#[verifier::external_body]
pub(crate) fn percent_encode_non_alphanumeric(s: &str) -> (r: String)
    ensures
        r@ == percent_encode_spec(s.spec_bytes()),
{
    percent_encoding::utf8_percent_encode(s, percent_encoding::NON_ALPHANUMERIC).to_string()
}

} // verus!
