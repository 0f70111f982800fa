//! Percent-encoding of URL components: what an encoded text is, how it is
//! read back, and the proof that reading back an encoded text gives the
//! text that was encoded.

use crate::query::{lacks, lemma_lacks_concat};
use vstd::prelude::*;
use vstd::utf8::*;

verus! {

/// Bytes that stand for themselves in an encoded text: ASCII letters and
/// digits and the four marks `-`, `.`, `_`, `~`.
pub open spec fn is_unreserved(byte: u8) -> bool {
    let c = byte as char;
    ||| '0' <= c <= '9'
    ||| 'A' <= c <= 'Z'
    ||| 'a' <= c <= 'z'
    ||| c == '-'
    ||| c == '.'
    ||| c == '_'
    ||| c == '~'
}

/// The upper-case hexadecimal digit for a value below sixteen.
pub open spec fn hex_digit(nibble: int) -> char
    recommends
        0 <= nibble < 16,
{
    if nibble < 10 {
        ('0' as int + nibble) as char
    } else {
        ('A' as int + nibble - 10) as char
    }
}

/// The value of a hexadecimal digit of either case.
pub open spec fn hex_value(digit: char) -> Option<int> {
    if '0' <= digit <= '9' {
        Some(digit as int - '0' as int)
    } else if 'A' <= digit <= 'F' {
        Some(digit as int - 'A' as int + 10)
    } else if 'a' <= digit <= 'f' {
        Some(digit as int - 'a' as int + 10)
    } else {
        None
    }
}

/// One byte in encoded form: itself when unreserved, otherwise `%` and its
/// two hexadecimal digits.
pub open spec fn escaped_byte(byte: u8) -> Seq<char> {
    if is_unreserved(byte) {
        seq![byte as char]
    } else {
        seq!['%', hex_digit(byte as int / 16), hex_digit(byte as int % 16)]
    }
}

/// A byte string in encoded form, byte by byte.
pub open spec fn escaped_bytes(bytes: Seq<u8>) -> Seq<char>
    decreases bytes.len(),
{
    if bytes.len() == 0 {
        Seq::empty()
    } else {
        escaped_byte(bytes[0]) + escaped_bytes(bytes.skip(1))
    }
}

/// The percent-encoding of a text: the encoded form of its UTF-8 bytes.
pub open spec fn percent_encoded(text: Seq<char>) -> Seq<char> {
    escaped_bytes(encode_utf8(text))
}

/// True when `text` starts with `%` and two hexadecimal digits.
pub open spec fn starts_with_escape(text: Seq<char>) -> bool {
    &&& text.len() >= 3
    &&& text[0] == '%'
    &&& hex_value(text[1]) is Some
    &&& hex_value(text[2]) is Some
}

/// The bytes that an encoded text stands for. An escape gives the byte it
/// names; any other character gives its own UTF-8 bytes.
pub open spec fn percent_decoded(text: Seq<char>) -> Seq<u8>
    decreases text.len(),
{
    if text.len() == 0 {
        Seq::empty()
    } else if starts_with_escape(text) {
        seq![(hex_value(text[1]).unwrap() * 16 + hex_value(text[2]).unwrap()) as u8]
            + percent_decoded(text.skip(3))
    } else {
        encode_utf8(seq![text[0]]) + percent_decoded(text.skip(1))
    }
}

/// True when `text` holds none of the characters that separate the parts of
/// a URL and of its query: `&`, `#`, `=`, `?`.
pub open spec fn is_url_safe(text: Seq<char>) -> bool {
    &&& lacks(text, '&')
    &&& lacks(text, '#')
    &&& lacks(text, '=')
    &&& lacks(text, '?')
}

/// Percent-encodes `data`.
///
/// Trusted: calls `urlencoding::encode`, which walks the UTF-8 bytes of its
/// argument, copies letters, digits, `-`, `.`, `_` and `~`, and writes every
/// other byte as `%` followed by its two upper-case hexadecimal digits.
#[verifier::external_body]
pub(crate) fn percent_encode(data: &str) -> (encoded: String)
    ensures
        encoded@ == percent_encoded(data@),
{
    urlencoding::encode(data).into_owned()
}

proof fn lemma_hex_digit_value(nibble: int)
    requires
        0 <= nibble < 16,
    ensures
        hex_value(hex_digit(nibble)) == Some(nibble),
        hex_digit(nibble) != '&',
        hex_digit(nibble) != '#',
        hex_digit(nibble) != '=',
        hex_digit(nibble) != '?',
{
}

proof fn lemma_single_ascii(c: char)
    requires
        c <= '\u{7f}',
    ensures
        encode_utf8(seq![c]) == seq![c as u8],
{
    is_ascii_chars_encode_utf8(seq![c]);
}

/// Reading back the encoded form of a byte string gives the byte string.
pub proof fn lemma_escaped_bytes_round_trip(bytes: Seq<u8>)
    ensures
        percent_decoded(escaped_bytes(bytes)) == bytes,
    decreases bytes.len(),
{
    if bytes.len() > 0 {
        let first = bytes[0];
        let rest = escaped_bytes(bytes.skip(1));
        let whole = escaped_bytes(bytes);
        lemma_escaped_bytes_round_trip(bytes.skip(1));
        if is_unreserved(first) {
            assert(whole.skip(1) =~= rest);
            lemma_single_ascii(first as char);
        } else {
            lemma_hex_digit_value(first as int / 16);
            lemma_hex_digit_value(first as int % 16);
            assert(whole.skip(3) =~= rest);
        }
    }
}

/// The encoded form of a byte string is free of `&`, `#`, `=` and `?`.
pub proof fn lemma_escaped_bytes_url_safe(bytes: Seq<u8>)
    ensures
        is_url_safe(escaped_bytes(bytes)),
    decreases bytes.len(),
{
    if bytes.len() > 0 {
        let first = bytes[0];
        let head = escaped_byte(first);
        let rest = escaped_bytes(bytes.skip(1));
        lemma_escaped_bytes_url_safe(bytes.skip(1));
        lemma_hex_digit_value(first as int / 16);
        lemma_hex_digit_value(first as int % 16);
        lemma_lacks_concat(head, rest, '&');
        lemma_lacks_concat(head, rest, '#');
        lemma_lacks_concat(head, rest, '=');
        lemma_lacks_concat(head, rest, '?');
    }
}

/// Decoding an encoded text, first from its escapes and then from UTF-8,
/// gives the text that was encoded.
pub proof fn lemma_percent_round_trip(text: Seq<char>)
    ensures
        percent_decoded(percent_encoded(text)) == encode_utf8(text),
        decode_utf8(percent_decoded(percent_encoded(text))) == text,
        is_url_safe(percent_encoded(text)),
{
    lemma_escaped_bytes_round_trip(encode_utf8(text));
    lemma_escaped_bytes_url_safe(encode_utf8(text));
    encode_utf8_decode_utf8(text);
}

} // verus!
