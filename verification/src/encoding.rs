//! Hexadecimal text, as the `hex` crate reads and writes it.

use vstd::prelude::*;
use vstd::utf8::{encode_utf8, is_ascii_chars, is_ascii_chars_encode_utf8};

verus! {

/// The lower-case hex digit that stands for a value below 16.
pub open spec fn hex_digit(nibble: int) -> char {
    if nibble < 10 {
        ((0x30 + nibble) as u8) as char
    } else {
        ((0x57 + nibble) as u8) as char
    }
}

/// The value of one hex digit, given as a byte of text. Both cases count.
pub open spec fn hex_value(digit: u8) -> Option<int> {
    if 0x30 <= digit <= 0x39 {
        Some(digit - 0x30)
    } else if 0x61 <= digit <= 0x66 {
        Some(digit - 0x61 + 10)
    } else if 0x41 <= digit <= 0x46 {
        Some(digit - 0x41 + 10)
    } else {
        None
    }
}

/// Every byte of `text` is a hex digit.
pub open spec fn is_hex_text(text: Seq<u8>) -> bool {
    forall|i: int| 0 <= i < text.len() ==> (#[trigger] hex_value(text[i])) is Some
}

/// The bytes that an even-length hex text stands for: two digits per byte,
/// the high half first.
pub open spec fn hex_decode(text: Seq<u8>) -> Seq<u8> {
    Seq::new(
        text.len() / 2,
        |i: int| (hex_value(text[2 * i]).unwrap() * 16 + hex_value(text[2 * i + 1]).unwrap()) as u8,
    )
}

/// The lower-case hex text of `data`: two digits per byte, the high half
/// first.
pub open spec fn hex_encode(data: Seq<u8>) -> Seq<char> {
    Seq::new(
        2 * data.len(),
        |i: int|
            if i % 2 == 0 {
                hex_digit(data[i / 2] as int / 16)
            } else {
                hex_digit(data[i / 2] as int % 16)
            },
    )
}

/// Decoding the text that encoding wrote gives the data back: the text of
/// `hex_encode` is ASCII, one byte per digit, and every digit is read as the
/// half byte it was written for.
pub proof fn lemma_decode_encode(data: Seq<u8>)
    ensures
        encode_utf8(hex_encode(data)).len() == 2 * data.len(),
        is_hex_text(encode_utf8(hex_encode(data))),
        hex_decode(encode_utf8(hex_encode(data))) == data,
{
    let chars = hex_encode(data);
    let text = encode_utf8(chars);
    assert(is_ascii_chars(chars));
    is_ascii_chars_encode_utf8(chars);
    assert forall|i: int| 0 <= i < text.len() implies hex_value(text[i]) == Some(
        if i % 2 == 0 {
            data[i / 2] as int / 16
        } else {
            data[i / 2] as int % 16
        },
    ) by {
        assert(text[i] == chars[i] as u8);
    }
    assert(hex_decode(text) =~= data);
}

#[verifier::external_type_specification]
#[verifier::external_body]
pub struct ExFromHexError(hex::FromHexError);

/// `hex::decode_to_slice` into a buffer of 32 bytes. It succeeds exactly on
/// 64 bytes of text that are all hex digits, and then fills the buffer with
/// the bytes they stand for. After a failure the buffer may hold anything.
#[verifier::external_body]
pub(crate) fn read_hex(text: &[u8], out: &mut [u8; 32]) -> (res: Result<(), hex::FromHexError>)
    ensures
        match res {
            Ok(_) => text@.len() == 64 && is_hex_text(text@) && final(out)@ == hex_decode(text@),
            Err(_) => !(text@.len() == 64 && is_hex_text(text@)),
        },
{
    hex::decode_to_slice(text, out)
}

/// `hex::encode`: the lower-case hex text of `data`.
#[verifier::external_body]
pub(crate) fn write_hex(data: &[u8]) -> (text: String)
    ensures
        text@ == hex_encode(data@),
{
    hex::encode(data)
}

} // verus!
