//! Percent-decoding of URI text.  A `'%'` followed by two hex digits
//! becomes that byte (a malformed escape stays literal); in query flavour
//! a `'+'` becomes a space.  The decoding itself is verified byte for
//! byte; only the final bytes-to-text step leans on std's UTF-8 decoders.

use vstd::prelude::*;
use vstd::string::StrSliceExecFns;
use vstd::string::StringSliceAdditionalSpecFns;
use vstd::utf8::{decode_utf8, encode_utf8, valid_utf8};

verus! {

/// Whether `b` is the ASCII code of a hex digit.
pub open spec fn is_hex_digit(b: u8) -> bool {
    (48 <= b <= 57) || (97 <= b <= 102) || (65 <= b <= 70)
}

/// The value of the hex digit with ASCII code `b`.
pub open spec fn hex_digit_value(b: u8) -> u8 {
    if 48 <= b <= 57 {
        (b - 48) as u8
    } else if 97 <= b <= 102 {
        (b - 87) as u8
    } else if 65 <= b <= 70 {
        (b - 55) as u8
    } else {
        0
    }
}

/// `b` percent-decoded: each `'%'` and two hex digits become one byte, a
/// malformed escape stays literal, and in query flavour (`plus`) a `'+'`
/// becomes a space.
pub open spec fn unescaped_bytes(b: Seq<u8>, plus: bool) -> Seq<u8>
    decreases b.len(),
{
    if b.len() == 0 {
        Seq::empty()
    } else if b.len() >= 3 && b[0] == 37 && is_hex_digit(b[1]) && is_hex_digit(b[2]) {
        seq![(hex_digit_value(b[1]) * 16 + hex_digit_value(b[2])) as u8] + unescaped_bytes(
            b.skip(3),
            plus,
        )
    } else if plus && b[0] == 43 {
        seq![32u8] + unescaped_bytes(b.skip(1), plus)
    } else {
        seq![b[0]] + unescaped_bytes(b.skip(1), plus)
    }
}

/// The percent-decoded bytes of a path segment (no `'+'` mapping).
pub open spec fn path_unescaped_bytes(t: Seq<char>) -> Seq<u8> {
    unescaped_bytes(encode_utf8(t), false)
}

/// What std's lossy UTF-8 decoding returns for a byte sequence.  It
/// depends on the bytes alone.
pub uninterp spec fn utf8_lossy_of(b: Seq<u8>) -> Seq<char>;

/// The text a query key or value denotes: its bytes percent-decoded with
/// `'+'` as space, read as UTF-8, losing invalid sequences.
pub open spec fn query_unescaped_text(t: Seq<char>) -> Seq<char> {
    let b = unescaped_bytes(encode_utf8(t), true);
    if valid_utf8(b) {
        decode_utf8(b)
    } else {
        utf8_lossy_of(b)
    }
}

/// Relies on `String::from_utf8`: it returns `Ok` exactly on valid UTF-8,
/// and the string's characters are the decoding of the bytes.
#[verifier::external_body]
fn utf8_to_string(v: Vec<u8>) -> (r: Option<String>)
    ensures
        r matches Some(s) ==> valid_utf8(v@) && s@ == decode_utf8(v@),
        r is None ==> !valid_utf8(v@),
{
    String::from_utf8(v).ok()
}

/// Relies on `String::from_utf8_lossy`: its result depends on the bytes
/// alone, and on valid UTF-8 it is exactly their decoding.
#[verifier::external_body]
fn utf8_to_string_lossy(v: &Vec<u8>) -> (r: String)
    ensures
        r@ == utf8_lossy_of(v@),
        valid_utf8(v@) ==> r@ == decode_utf8(v@),
{
    String::from_utf8_lossy(v.as_slice()).into_owned()
}

/// The value of the hex digit at `b[i]`.
fn hex_value_at(b: &Vec<u8>, i: usize) -> (r: u8)
    requires
        i < b.len(),
        is_hex_digit(b@[i as int]),
    ensures
        r == hex_digit_value(b@[i as int]),
{
    let x = b[i];
    if 48 <= x && x <= 57 {
        x - 48
    } else if 97 <= x && x <= 102 {
        x - 87
    } else {
        x - 55
    }
}

/// Whether `b[i]` is the ASCII code of a hex digit.
fn is_hex_at(b: &Vec<u8>, i: usize) -> (r: bool)
    requires
        i < b.len(),
    ensures
        r == is_hex_digit(b@[i as int]),
{
    let x = b[i];
    (48 <= x && x <= 57) || (97 <= x && x <= 102) || (65 <= x && x <= 70)
}

/// Percent-decodes `b[i..]`, as `unescaped_bytes` describes.
fn unescape_from(b: &Vec<u8>, i: usize, plus: bool) -> (r: Vec<u8>)
    requires
        i <= b.len(),
    ensures
        r@ == unescaped_bytes(b@.skip(i as int), plus),
    decreases b.len() - i,
{
    if i == b.len() {
        let r: Vec<u8> = Vec::new();
        proof {
            assert(r@ =~= unescaped_bytes(b@.skip(i as int), plus));
        }
        r
    } else if b.len() - i >= 3 && b[i] == 37 && is_hex_at(b, i + 1) && is_hex_at(b, i + 2) {
        let hi = hex_value_at(b, i + 1);
        let lo = hex_value_at(b, i + 2);
        let mut r = unescape_from(b, i + 3, plus);
        r.insert(0, hi * 16 + lo);
        proof {
            assert(b@.skip(i as int).skip(3) =~= b@.skip(i + 3));
            assert(r@ =~= unescaped_bytes(b@.skip(i as int), plus));
        }
        r
    } else {
        let x = b[i];
        let mut r = unescape_from(b, i + 1, plus);
        if plus && x == 43 {
            r.insert(0, 32);
        } else {
            r.insert(0, x);
        }
        proof {
            assert(b@.skip(i as int).skip(1) =~= b@.skip(i + 1));
            assert(r@ =~= unescaped_bytes(b@.skip(i as int), plus));
        }
        r
    }
}

/// Percent-decodes a path segment into text: `None` exactly when the
/// decoded bytes are not valid UTF-8.
pub fn unescape_path_text(s: &str) -> (r: Option<String>)
    ensures
        r matches Some(t) ==> valid_utf8(path_unescaped_bytes(s@)) && t@ == decode_utf8(
            path_unescaped_bytes(s@),
        ),
        r is None ==> !valid_utf8(path_unescaped_bytes(s@)),
{
    let bytes = s.as_bytes_vec();
    proof {
        assert(bytes@.skip(0) =~= bytes@);
    }
    let decoded = unescape_from(&bytes, 0, false);
    utf8_to_string(decoded)
}

/// Percent-decodes a query key or value into text, `'+'` as space,
/// invalid UTF-8 lost.
pub fn unescape_query_text(s: &str) -> (r: String)
    ensures
        r@ == query_unescaped_text(s@),
{
    let bytes = s.as_bytes_vec();
    proof {
        assert(bytes@.skip(0) =~= bytes@);
    }
    let decoded = unescape_from(&bytes, 0, true);
    utf8_to_string_lossy(&decoded)
}

} // verus!
