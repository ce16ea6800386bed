//! Hexadecimal text of byte strings.

use vstd::prelude::*;

verus! {

/// The lowercase hexadecimal digit of a value below 16.
pub open spec fn hex_digit(nibble: int) -> char {
    "0123456789abcdef"@[nibble]
}

/// Lowercase hexadecimal text of a byte string: two digits per byte, the
/// high half first.
pub open spec fn hex_lower(data: Seq<u8>) -> Seq<char> {
    Seq::new(
        2 * data.len(),
        |i: int|
            if i % 2 == 0 {
                hex_digit(data[i / 2] as int / 16)
            } else {
                hex_digit(data[i / 2] as int % 16)
            },
    )
}

/// The uppercase hexadecimal digit of a value below 16.
pub open spec fn hex_digit_upper(nibble: int) -> char {
    "0123456789ABCDEF"@[nibble]
}

/// Uppercase hexadecimal text of a byte string: two digits per byte, the
/// high half first.
pub open spec fn hex_upper(data: Seq<u8>) -> Seq<char> {
    Seq::new(
        2 * data.len(),
        |i: int|
            if i % 2 == 0 {
                hex_digit_upper(data[i / 2] as int / 16)
            } else {
                hex_digit_upper(data[i / 2] as int % 16)
            },
    )
}

/// The value of a hexadecimal digit of either case.
pub open spec fn hex_value(c: char) -> Option<int> {
    if '0' <= c && c <= '9' {
        Some(c as int - '0' as int)
    } else if 'a' <= c && c <= 'f' {
        Some(c as int - 'a' as int + 10)
    } else if 'A' <= c && c <= 'F' {
        Some(c as int - 'A' as int + 10)
    } else {
        None
    }
}

/// The text without a leading `0x` or `0X`.
pub open spec fn strip_hex_prefix(text: Seq<char>) -> Seq<char> {
    if text.len() >= 2 && text[0] == '0' && (text[1] == 'x' || text[1] == 'X') {
        text.skip(2)
    } else {
        text
    }
}

/// The bytes that hexadecimal text stands for. The text may carry a `0x`
/// prefix and digits of either case; it must hold an even number of
/// characters, all of them digits once the prefix is gone.
pub open spec fn hex_decode(text: Seq<char>) -> Option<Seq<u8>> {
    let digits = strip_hex_prefix(text);
    if text.len() % 2 == 0 && (forall|i: int| 0 <= i < digits.len() ==> hex_value(
        #[trigger] digits[i],
    ) is Some) {
        Some(
            Seq::new(
                digits.len() / 2,
                |i: int| (hex_value(digits[2 * i])->0 * 16 + hex_value(digits[2 * i + 1])->0) as u8,
            ),
        )
    } else {
        None
    }
}

/// Every hexadecimal digit, of either case, has the value it stands for.
pub proof fn lemma_hex_digit_value(nibble: int)
    requires
        0 <= nibble < 16,
    ensures
        hex_value(hex_digit(nibble)) == Some(nibble),
        hex_value(hex_digit_upper(nibble)) == Some(nibble),
{
    reveal_strlit("0123456789abcdef");
    reveal_strlit("0123456789ABCDEF");
}

/// Hexadecimal text decodes to the bytes it was encoded from, whatever the
/// case of its digits.
pub proof fn lemma_hex_round_trip(data: Seq<u8>)
    ensures
        hex_decode(hex_lower(data)) == Some(data),
        hex_decode(hex_upper(data)) == Some(data),
{
    reveal_strlit("0123456789abcdef");
    reveal_strlit("0123456789ABCDEF");
    let lower = hex_lower(data);
    let upper = hex_upper(data);
    assert forall|i: int| 0 <= i < lower.len() implies hex_value(#[trigger] lower[i]) == Some(
        if i % 2 == 0 {
            data[i / 2] as int / 16
        } else {
            data[i / 2] as int % 16
        },
    ) by {
        lemma_hex_digit_value(data[i / 2] as int / 16);
        lemma_hex_digit_value(data[i / 2] as int % 16);
    }
    assert forall|i: int| 0 <= i < upper.len() implies hex_value(#[trigger] upper[i]) == Some(
        if i % 2 == 0 {
            data[i / 2] as int / 16
        } else {
            data[i / 2] as int % 16
        },
    ) by {
        lemma_hex_digit_value(data[i / 2] as int / 16);
        lemma_hex_digit_value(data[i / 2] as int % 16);
    }
    // no digit is the letter of a prefix
    assert(lower.len() >= 2 ==> hex_value(lower[1]) is Some);
    assert(upper.len() >= 2 ==> hex_value(upper[1]) is Some);
    assert(strip_hex_prefix(lower) == lower);
    assert(strip_hex_prefix(upper) == upper);
    assert(hex_decode(lower)->0 =~= data) by {
        assert forall|i: int| 0 <= i < data.len() implies #[trigger] hex_decode(lower)->0[i]
            == data[i] by {
            assert(hex_value(lower[2 * i]) == Some(data[i] as int / 16));
            assert(hex_value(lower[2 * i + 1]) == Some(data[i] as int % 16));
        }
    }
    assert(hex_decode(upper)->0 =~= data) by {
        assert forall|i: int| 0 <= i < data.len() implies #[trigger] hex_decode(upper)->0[i]
            == data[i] by {
            assert(hex_value(upper[2 * i]) == Some(data[i] as int / 16));
            assert(hex_value(upper[2 * i + 1]) == Some(data[i] as int % 16));
        }
    }
}

/// Calls `const_hex::encode`. Trusted: each byte becomes two lowercase
/// hexadecimal digits, the high half first.
#[verifier::external_body]
pub(crate) fn encode(data: &[u8]) -> (text: String)
    ensures
        text@ == hex_lower(data@),
{
    const_hex::encode(data)
}

/// Calls `const_hex::encode_upper`. Trusted: each byte becomes two uppercase
/// hexadecimal digits, the high half first.
#[verifier::external_body]
pub(crate) fn encode_upper(data: &[u8]) -> (text: String)
    ensures
        text@ == hex_upper(data@),
{
    const_hex::encode_upper(data)
}

/// Calls `const_hex::decode`. Trusted: a leading `0x` is dropped, digits of
/// either case are accepted, and the call fails on an odd length or on a
/// character that is no hexadecimal digit.
#[verifier::external_body]
pub(crate) fn decode(text: &str) -> (bytes: Option<Vec<u8>>)
    ensures
        match bytes {
            Some(b) => hex_decode(text@) == Some(b@),
            None => hex_decode(text@) is None,
        },
{
    const_hex::decode(text).ok()
}

} // verus!
