//! Text forms of numbers and bytes: decimal numerals and lowercase hexadecimal.

use vstd::prelude::*;
use vstd::string::{StrSliceExecFns, StringExecFns};

verus! {

/// The decimal digit for a value below ten.
pub open spec fn digit(value: nat) -> char {
    ('0' as u8 + value) as char
}

/// The decimal numeral of `n`, without sign or leading zeros.
pub open spec fn decimal(n: nat) -> Seq<char>
    decreases n,
{
    if n < 10 {
        seq![digit(n)]
    } else {
        decimal(n / 10).push(digit(n % 10))
    }
}

/// The text of one decimal digit.
fn digit_text(value: u64) -> (r: &'static str)
    requires
        value < 10,
    ensures
        r@ == seq![digit(value as nat)],
{
    proof {
        reveal_strlit("0");
        reveal_strlit("1");
        reveal_strlit("2");
        reveal_strlit("3");
        reveal_strlit("4");
        reveal_strlit("5");
        reveal_strlit("6");
        reveal_strlit("7");
        reveal_strlit("8");
        reveal_strlit("9");
    }
    let r = if value == 0 {
        "0"
    } else if value == 1 {
        "1"
    } else if value == 2 {
        "2"
    } else if value == 3 {
        "3"
    } else if value == 4 {
        "4"
    } else if value == 5 {
        "5"
    } else if value == 6 {
        "6"
    } else if value == 7 {
        "7"
    } else if value == 8 {
        "8"
    } else {
        "9"
    };
    assert(r@ =~= seq![digit(value as nat)]);
    r
}

/// Writes `n` as a decimal numeral.
pub fn decimal_string(n: u64) -> (r: String)
    ensures
        r@ == decimal(n as nat),
    decreases n,
{
    if n < 10 {
        String::from_str(digit_text(n))
    } else {
        let mut text = decimal_string(n / 10);
        text.append(digit_text(n % 10));
        text
    }
}

/// The lowercase hexadecimal digit for a value below sixteen.
pub open spec fn hex_digit(value: nat) -> char {
    if value < 10 {
        ('0' as u8 + value) as char
    } else {
        ('a' as u8 + (value - 10)) as char
    }
}

/// The lowercase hexadecimal text of `bytes`: two digits for each byte, the
/// high half first.
pub open spec fn hex_text(bytes: Seq<u8>) -> Seq<char> {
    Seq::new(
        2 * bytes.len(),
        |i: int|
            if i % 2 == 0 {
                hex_digit((bytes[i / 2] / 16) as nat)
            } else {
                hex_digit((bytes[i / 2] % 16) as nat)
            },
    )
}

/// The lowercase hexadecimal text of `bytes` as the bytes of that text.
pub open spec fn hex_encoding(bytes: Seq<u8>) -> Seq<u8> {
    Seq::new(2 * bytes.len(), |i: int| hex_text(bytes)[i] as u8)
}

/// Calls `hex::encode`. Trusted: the result is the lowercase hexadecimal
/// text of the bytes, two digits for each.
#[verifier::external_body]
fn hex_encode(bytes: &[u8]) -> (r: String)
    ensures
        r@ == hex_text(bytes@),
{
    hex::encode(bytes)
}

/// Encodes `bytes` as lowercase hexadecimal text, and gives the bytes of that text.
pub fn hex_bytes(bytes: &[u8]) -> (r: Vec<u8>)
    ensures
        r@ == hex_encoding(bytes@),
{
    let text = hex_encode(bytes);
    proof {
        assert(vstd::utf8::is_ascii_chars(text@));
        vstd::utf8::is_ascii_chars_encode_utf8(text@);
    }
    let encoded = text.as_str().as_bytes_vec();
    assert(encoded@ =~= hex_encoding(bytes@));
    encoded
}

/// A hexadecimal encoding is twice as long as what it encodes, so it never
/// equals a non-empty input.
pub proof fn lemma_hex_encoding_differs(bytes: Seq<u8>)
    requires
        bytes.len() > 0,
    ensures
        hex_encoding(bytes).len() == 2 * bytes.len(),
        hex_encoding(bytes) != bytes,
{
}

} // verus!
