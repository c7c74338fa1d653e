use vstd::prelude::*;
use vstd::slice::slice_subrange;
use vstd::utf8::{encode_utf8, is_ascii_chars_encode_utf8};

verus! {

/// `hex::FromHexError`, the reason why `hex::decode` failed. Nothing is
/// read off it.
#[verifier::external_type_specification]
#[verifier::external_body]
pub struct ExFromHexError(hex::FromHexError);

/// The value of one hexadecimal digit, given as its ASCII byte. Both cases
/// of the letters count.
pub open spec fn hex_digit_value(digit: u8) -> Option<u8> {
    if 0x30 <= digit <= 0x39 {
        Some((digit - 0x30) as u8)
    } else if 0x41 <= digit <= 0x46 {
        Some((digit - 0x41 + 10) as u8)
    } else if 0x61 <= digit <= 0x66 {
        Some((digit - 0x61 + 10) as u8)
    } else {
        None
    }
}

/// Whether `text` is hexadecimal digits, two for each byte.
pub open spec fn is_hex_text(text: Seq<u8>) -> bool {
    &&& text.len() % 2 == 0
    &&& forall|i: int| 0 <= i < text.len() ==> hex_digit_value(#[trigger] text[i]) is Some
}

/// The bytes that the digits of `text` spell, two digits to a byte, the high
/// half first.
pub open spec fn hex_bytes(text: Seq<u8>) -> Seq<u8> {
    Seq::new(
        text.len() / 2,
        |i: int|
            (16 * hex_digit_value(text[2 * i]).unwrap() + hex_digit_value(
                text[2 * i + 1],
            ).unwrap()) as u8,
    )
}

/// `text` without one leading `0x`, if it has one.
pub open spec fn without_hex_prefix(text: Seq<u8>) -> Seq<u8> {
    if text.len() >= 2 && text[0] == 0x30 && text[1] == 0x78 {
        text.skip(2)
    } else {
        text
    }
}

/// The revert payload that a node reports as `text`: the bytes that its
/// hexadecimal digits spell, after a `0x` that may lead them. `None` where
/// the text is not such digits.
pub open spec fn revert_payload(text: Seq<char>) -> Option<Seq<u8>> {
    let digits = without_hex_prefix(encode_utf8(text));
    if is_hex_text(digits) {
        Some(hex_bytes(digits))
    } else {
        None
    }
}

/// `hex::decode`: it succeeds on an even number of hexadecimal digits of
/// either case, and on nothing else, and then gives one byte for each two
/// digits, the first digit being the high half.
#[verifier::external_body]
fn hex_decode(text: &[u8]) -> (r: Result<Vec<u8>, hex::FromHexError>)
    ensures
        r is Ok <==> is_hex_text(text@),
        r matches Ok(bytes) ==> bytes@ == hex_bytes(text@),
{
    hex::decode(text)
}

/// Reads the revert payload that a node reports as `text`.
pub fn decode_revert_payload(text: &str) -> (r: Option<Vec<u8>>)
    ensures
        r matches Some(bytes) ==> revert_payload(text@) == Some(bytes@),
        r is None ==> revert_payload(text@) is None,
{
    let bytes = text.as_bytes();
    let digits = if bytes.len() >= 2 && bytes[0] == 0x30 && bytes[1] == 0x78 {
        slice_subrange(bytes, 2, bytes.len())
    } else {
        bytes
    };
    match hex_decode(digits) {
        Ok(payload) => Some(payload),
        Err(_) => None,
    }
}

/// The hexadecimal digit, in lower case, of a number below 16.
pub open spec fn hex_digit(nibble: int) -> char {
    if nibble < 10 {
        (0x30 + nibble) as char
    } else {
        (0x57 + nibble) as char
    }
}

/// `bytes` in hexadecimal digits of lower case: two for each byte, the high
/// half first.
pub open spec fn hex_text(bytes: Seq<u8>) -> Seq<char> {
    Seq::new(
        2 * bytes.len(),
        |i: int|
            if i % 2 == 0 {
                hex_digit(bytes[i / 2] as int / 16)
            } else {
                hex_digit(bytes[i / 2] as int % 16)
            },
    )
}

/// `hex::encode`: each byte becomes two hexadecimal digits of lower case,
/// the high half first.
#[verifier::external_body]
pub(crate) fn hex_encode(bytes: &[u8]) -> (r: String)
    ensures
        r@ == hex_text(bytes@),
{
    hex::encode(bytes)
}

/// What is written in hexadecimal digits reads back as the same bytes.
pub proof fn lemma_hex_text_reads_back(bytes: Seq<u8>)
    ensures
        revert_payload(hex_text(bytes)) == Some(bytes),
{
    let text = hex_text(bytes);
    assert forall|i: int| 0 <= i < text.len() implies '\0' <= #[trigger] text[i] <= '\u{7f}' by {
        let half = bytes[i / 2] as int;
        assert(0 <= half / 16 < 16 && 0 <= half % 16 < 16);
    }
    is_ascii_chars_encode_utf8(text);
    let raw = encode_utf8(text);
    assert forall|i: int| 0 <= i < raw.len() implies hex_digit_value(#[trigger] raw[i]) is Some by {
        let half = bytes[i / 2] as int;
        assert(0 <= half / 16 < 16 && 0 <= half % 16 < 16);
        assert(raw[i] == text[i] as u8);
    }
    if raw.len() >= 2 {
        assert(hex_digit_value(raw[1]) is Some);
    }
    assert(without_hex_prefix(raw) == raw);
    assert forall|i: int| 0 <= i < bytes.len() implies #[trigger] hex_bytes(raw)[i] == bytes[i] by {
        let half = bytes[i] as int;
        assert(raw[2 * i] == text[2 * i] as u8);
        assert(raw[2 * i + 1] == text[2 * i + 1] as u8);
        assert(hex_digit_value(raw[2 * i]) == Some((half / 16) as u8));
        assert(hex_digit_value(raw[2 * i + 1]) == Some((half % 16) as u8));
    }
    assert(hex_bytes(raw) =~= bytes);
}

} // verus!
