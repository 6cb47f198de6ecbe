//! Percent-encoding of a query parameter.
//!
//! A byte that is a letter, a digit or one of `-`, `.`, `_`, `~` stands for
//! itself; every other byte is written as `%` and its two upper-case
//! hexadecimal digits. What comes out is plain ASCII without any character
//! that separates the parts of a URL, and decoding it gives the bytes back.

use vstd::prelude::*;
use vstd::utf8::*;

verus! {

/// Whether a byte stands for itself in a query parameter.
pub open spec fn is_unreserved(byte: u8) -> bool {
    ||| 0x30 <= byte <= 0x39
    ||| 0x41 <= byte <= 0x5a
    ||| 0x61 <= byte <= 0x7a
    ||| byte == 0x2d
    ||| byte == 0x2e
    ||| byte == 0x5f
    ||| byte == 0x7e
}

/// The upper-case hexadecimal digit for a value below sixteen.
pub open spec fn hex_digit(value: int) -> char
    recommends
        0 <= value < 16,
{
    if value < 10 {
        (0x30 + value) as char
    } else {
        (0x41 + value - 10) as char
    }
}

/// The value of a hexadecimal digit of either case.
pub open spec fn hex_value(digit: char) -> Option<int> {
    if '0' <= digit <= '9' {
        Some(digit as int - 0x30)
    } else if 'A' <= digit <= 'F' {
        Some(digit as int - 0x41 + 10)
    } else if 'a' <= digit <= 'f' {
        Some(digit as int - 0x61 + 10)
    } else {
        None
    }
}

/// How one byte is written.
pub open spec fn escaped(byte: u8) -> Seq<char> {
    if is_unreserved(byte) {
        seq![byte as char]
    } else {
        seq!['%', hex_digit(byte as int / 16), hex_digit(byte as int % 16)]
    }
}

/// The percent-encoding of a byte string.
pub open spec fn percent_encoded(bytes: Seq<u8>) -> Seq<char>
    decreases bytes.len(),
{
    if bytes.len() == 0 {
        Seq::empty()
    } else {
        escaped(bytes[0]) + percent_encoded(bytes.drop_first())
    }
}

/// Whether `text` starts with a well-formed escape.
pub open spec fn starts_with_escape(text: Seq<char>) -> bool {
    &&& text.len() >= 3
    &&& text[0] == '%'
    &&& hex_value(text[1]) is Some
    &&& hex_value(text[2]) is Some
}

/// The bytes a percent-encoded text stands for. A well-formed escape gives
/// the byte it names; any other character, a stray `%` included, gives its
/// own UTF-8 bytes.
pub open spec fn percent_decoded(text: Seq<char>) -> Seq<u8>
    decreases text.len(),
{
    if text.len() == 0 {
        Seq::empty()
    } else if starts_with_escape(text) {
        seq![(hex_value(text[1])->0 * 16 + hex_value(text[2])->0) as u8] + percent_decoded(
            text.skip(3),
        )
    } else {
        encode_utf8(seq![text[0]]) + percent_decoded(text.drop_first())
    }
}

/// Whether a character can stand inside a query parameter without ending it
/// or changing its meaning: an unreserved ASCII character or the `%` that
/// starts an escape.
pub open spec fn is_parameter_char(c: char) -> bool {
    c == '%' || (c as int <= 0x7f && is_unreserved(c as u8))
}

/// `urlencoding::encode` of the outside crate, which goes through the UTF-8
/// bytes of `text` and leaves letters, digits, `-`, `.`, `_` and `~` as they
/// are, writing every other byte as `%` followed by its two upper-case
/// hexadecimal digits.
#[verifier::external_body]
pub(crate) fn url_encode(text: &str) -> (encoded: String)
    ensures
        encoded@ == percent_encoded(encode_utf8(text@)),
{
    urlencoding::encode(text).into_owned()
}

/// A hexadecimal digit is read back as the value it was written for.
proof fn lemma_hex_digit_value(value: int)
    requires
        0 <= value < 16,
    ensures
        hex_value(hex_digit(value)) == Some(value),
        is_parameter_char(hex_digit(value)),
{
    let digit = hex_digit(value);
    if value < 10 {
        assert(digit as int == 0x30 + value);
    } else {
        assert(digit as int == 0x41 + value - 10);
    }
}

/// A single ASCII character is one byte of UTF-8.
proof fn lemma_ascii_char_bytes(c: char)
    requires
        c as int <= 0x7f,
    ensures
        encode_utf8(seq![c]) == seq![c as u8],
{
    let chars = seq![c];
    assert(is_ascii_chars(chars));
    is_ascii_chars_encode_utf8(chars);
    assert(encode_utf8(chars)[0] == chars[0] as u8);
    assert(encode_utf8(chars) =~= seq![c as u8]);
}

/// Decoding undoes encoding, for every byte string.
pub proof fn lemma_percent_round_trip(bytes: Seq<u8>)
    ensures
        percent_decoded(percent_encoded(bytes)) == bytes,
    decreases bytes.len(),
{
    if bytes.len() > 0 {
        let first = bytes[0];
        let rest = bytes.drop_first();
        let text = percent_encoded(bytes);
        lemma_percent_round_trip(rest);
        if is_unreserved(first) {
            let c = first as char;
            assert(text[0] == c);
            assert(c != '%');
            assert(!starts_with_escape(text));
            assert(text.drop_first() =~= percent_encoded(rest));
            lemma_ascii_char_bytes(c);
            assert(percent_decoded(text) =~= bytes);
        } else {
            let high = first as int / 16;
            let low = first as int % 16;
            lemma_hex_digit_value(high);
            lemma_hex_digit_value(low);
            assert(text[0] == '%');
            assert(text[1] == hex_digit(high));
            assert(text[2] == hex_digit(low));
            assert(starts_with_escape(text));
            assert(text.skip(3) =~= percent_encoded(rest));
            assert((high * 16 + low) as u8 == first);
            assert(percent_decoded(text) =~= bytes);
        }
    }
}

/// The encoding holds only characters that may stand inside a parameter.
pub proof fn lemma_encoded_chars(bytes: Seq<u8>)
    ensures
        forall|i: int|
            0 <= i < percent_encoded(bytes).len() ==> is_parameter_char(
                #[trigger] percent_encoded(bytes)[i],
            ),
    decreases bytes.len(),
{
    if bytes.len() > 0 {
        let first = bytes[0];
        let head = escaped(first);
        let tail = percent_encoded(bytes.drop_first());
        lemma_encoded_chars(bytes.drop_first());
        lemma_hex_digit_value(first as int / 16);
        lemma_hex_digit_value(first as int % 16);
        assert forall|i: int| 0 <= i < head.len() implies is_parameter_char(#[trigger] head[i]) by {
            if is_unreserved(first) {
                assert(head[i] == first as char);
                assert((first as char) as u8 == first);
            }
        }
        assert forall|i: int| 0 <= i < percent_encoded(bytes).len() implies is_parameter_char(
            #[trigger] percent_encoded(bytes)[i],
        ) by {
            if i < head.len() {
                assert(percent_encoded(bytes)[i] == head[i]);
            } else {
                assert(percent_encoded(bytes)[i] == tail[i - head.len()]);
            }
        }
    }
}

} // verus!
