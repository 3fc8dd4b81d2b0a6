//! Feed identifiers: 32-byte keys written as 64 hexadecimal digits, with an
//! optional `0x` prefix.
use vstd::prelude::*;
use vstd::string::StringSliceAdditionalSpecFns;

verus! {

broadcast use vstd::utf8::group_utf8_lib;

/// Number of hexadecimal digits in a feed identifier.
pub const FEED_ID_HEX_LEN: usize = 64;

/// A byte that is an ASCII hexadecimal digit, in either case.
pub open spec fn is_hex_digit(b: u8) -> bool {
    (0x30 <= b && b <= 0x39) || (0x41 <= b && b <= 0x46) || (0x61 <= b && b <= 0x66)
}

/// The value of a hexadecimal digit.
pub open spec fn hex_digit_value(b: u8) -> int {
    if b <= 0x39 {
        b - 0x30
    } else if b <= 0x46 {
        b - 0x41 + 10
    } else {
        b - 0x61 + 10
    }
}

/// Every byte is a hexadecimal digit.
pub open spec fn is_hex_string(s: Seq<u8>) -> bool {
    forall|i: int| 0 <= i < s.len() ==> is_hex_digit(#[trigger] s[i])
}

/// Does the text start with the `0x` prefix?
pub open spec fn has_hex_prefix(s: Seq<u8>) -> bool {
    s.len() >= 2 && s[0] == 0x30 && s[1] == 0x78
}

/// The text without one leading `0x`, if it has one.
pub open spec fn strip_hex_prefix_spec(s: Seq<u8>) -> Seq<u8> {
    if has_hex_prefix(s) {
        s.subrange(2, s.len() as int)
    } else {
        s
    }
}

/// After stripping an optional prefix, exactly 64 hexadecimal digits remain.
pub open spec fn is_feed_id_hex(s: Seq<u8>) -> bool {
    let n = strip_hex_prefix_spec(s);
    n.len() == FEED_ID_HEX_LEN && is_hex_string(n)
}

/// The bytes that a string of hexadecimal digits encodes, two digits per byte,
/// high digit first.
pub open spec fn decode_hex(s: Seq<u8>) -> Seq<u8> {
    Seq::new(
        s.len() / 2,
        |i: int| (hex_digit_value(s[2 * i]) * 16 + hex_digit_value(s[2 * i + 1])) as u8,
    )
}

/// The 32-byte key named by a well-formed feed identifier text.
pub open spec fn feed_id_of(s: Seq<u8>) -> Seq<u8> {
    decode_hex(strip_hex_prefix_spec(s))
}

/// Index 2 is a character boundary of text that starts with two ASCII bytes.
proof fn lemma_prefix_is_char_boundary(s: &str)
    requires
        has_hex_prefix(s.spec_bytes()),
    ensures
        vstd::utf8::is_char_boundary(s.spec_bytes(), 2),
{
    let b = s.spec_bytes();
    assert(vstd::utf8::valid_utf8(b));
    reveal_with_fuel(vstd::utf8::is_char_boundary, 3);
    let p = vstd::utf8::pop_first_scalar(b);
    assert(p =~= b.subrange(1, b.len() as int));
    assert(vstd::utf8::valid_utf8(p));
    assert(vstd::utf8::pop_first_scalar(p) =~= b.subrange(2, b.len() as int));
}

/// Removes one leading `0x` from the text, if present.
pub fn strip_hex_prefix(s: &str) -> (r: &str)
    ensures
        r.spec_bytes() == strip_hex_prefix_spec(s.spec_bytes()),
{
    let b = s.as_bytes();
    if b.len() >= 2 && b[0] == 0x30u8 && b[1] == 0x78u8 {
        proof {
            lemma_prefix_is_char_boundary(s);
        }
        let (_, rest) = s.split_at(2);
        rest
    } else {
        s
    }
}

/// Is this byte an ASCII hexadecimal digit?
pub fn is_hex_digit_byte(b: u8) -> (r: bool)
    ensures
        r == is_hex_digit(b),
{
    (0x30u8 <= b && b <= 0x39u8) || (0x41u8 <= b && b <= 0x46u8) || (0x61u8 <= b && b <= 0x66u8)
}

/// Is every character of the text a hexadecimal digit?
pub fn is_valid_hex_string(s: &str) -> (r: bool)
    ensures
        r == is_hex_string(s.spec_bytes()),
{
    let b = s.as_bytes();
    let mut i: usize = 0;
    while i < b.len()
        invariant
            b@ == s.spec_bytes(),
            0 <= i <= b@.len(),
            forall|j: int| 0 <= j < i ==> is_hex_digit(#[trigger] b@[j]),
        decreases b@.len() - i,
    {
        if !is_hex_digit_byte(b[i]) {
            return false;
        }
        i = i + 1;
    }
    true
}

} // verus!
