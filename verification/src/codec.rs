//! The two codecs between stored bytes and typed values: an unsigned 64-bit
//! integer in eight little-endian bytes, and text in UTF-8.

use crate::error::DecodeFault;
use byteorder::{ByteOrder, LittleEndian};
use vstd::prelude::*;
use vstd::string::StringSliceAdditionalSpecFns;
use vstd::utf8::{decode_utf8, encode_utf8, valid_utf8};

verus! {

/// The number of bytes that a stored integer takes.
pub const U64_WIDTH: usize = 8;

/// The integer that eight bytes spell, least significant byte first.
pub open spec fn le_u64(bytes: Seq<u8>) -> int
    recommends
        bytes.len() == 8,
{
    bytes[0] as int
        + 0x100 * (bytes[1] as int)
        + 0x1_0000 * (bytes[2] as int)
        + 0x100_0000 * (bytes[3] as int)
        + 0x1_0000_0000 * (bytes[4] as int)
        + 0x100_0000_0000 * (bytes[5] as int)
        + 0x1_0000_0000_0000 * (bytes[6] as int)
        + 0x100_0000_0000_0000 * (bytes[7] as int)
}

/// The eight bytes that spell `value`, least significant byte first.
pub open spec fn le_bytes(value: u64) -> Seq<u8> {
    seq![
        (value as int % 0x100) as u8,
        (value as int / 0x100 % 0x100) as u8,
        (value as int / 0x1_0000 % 0x100) as u8,
        (value as int / 0x100_0000 % 0x100) as u8,
        (value as int / 0x1_0000_0000 % 0x100) as u8,
        (value as int / 0x100_0000_0000 % 0x100) as u8,
        (value as int / 0x1_0000_0000_0000 % 0x100) as u8,
        (value as int / 0x100_0000_0000_0000 % 0x100) as u8,
    ]
}

/// Eight bytes always spell an integer that fits in 64 bits.
pub proof fn lemma_le_u64_fits(bytes: Seq<u8>)
    requires
        bytes.len() == 8,
    ensures
        0 <= le_u64(bytes) <= u64::MAX,
{
}

/// Decoding what was encoded gives the integer back.
pub proof fn lemma_encode_then_decode(value: u64)
    ensures
        le_bytes(value).len() == 8,
        le_u64(le_bytes(value)) == value,
{
    assert(value == (value % 0x100) + 0x100 * (value / 0x100 % 0x100) + 0x1_0000 * (value
        / 0x1_0000 % 0x100) + 0x100_0000 * (value / 0x100_0000 % 0x100) + 0x1_0000_0000 * (value
        / 0x1_0000_0000 % 0x100) + 0x100_0000_0000 * (value / 0x100_0000_0000 % 0x100)
        + 0x1_0000_0000_0000 * (value / 0x1_0000_0000_0000 % 0x100) + 0x100_0000_0000_0000 * (value
        / 0x100_0000_0000_0000 % 0x100)) by (bit_vector);
}

/// Encoding what was decoded gives the eight bytes back.
pub proof fn lemma_decode_then_encode(bytes: Seq<u8>)
    requires
        bytes.len() == 8,
    ensures
        le_bytes(le_u64(bytes) as u64) == bytes,
{
    lemma_le_u64_fits(bytes);
    let b0 = bytes[0];
    let b1 = bytes[1];
    let b2 = bytes[2];
    let b3 = bytes[3];
    let b4 = bytes[4];
    let b5 = bytes[5];
    let b6 = bytes[6];
    let b7 = bytes[7];
    let value = le_u64(bytes) as u64;
    assert(value == b0 + 0x100 * b1 + 0x1_0000 * b2 + 0x100_0000 * b3 + 0x1_0000_0000 * b4
        + 0x100_0000_0000 * b5 + 0x1_0000_0000_0000 * b6 + 0x100_0000_0000_0000 * b7);
    assert(value % 0x100 == b0 && value / 0x100 % 0x100 == b1 && value / 0x1_0000 % 0x100 == b2
        && value / 0x100_0000 % 0x100 == b3 && value / 0x1_0000_0000 % 0x100 == b4 && value
        / 0x100_0000_0000 % 0x100 == b5 && value / 0x1_0000_0000_0000 % 0x100 == b6 && value
        / 0x100_0000_0000_0000 % 0x100 == b7) by (bit_vector)
        requires
            value == b0 + 0x100 * b1 + 0x1_0000 * b2 + 0x100_0000 * b3 + 0x1_0000_0000 * b4
                + 0x100_0000_0000 * b5 + 0x1_0000_0000_0000 * b6 + 0x100_0000_0000_0000 * b7,
    ;
    assert(le_bytes(value) =~= bytes);
}

/// `byteorder::LittleEndian::read_u64`: the first eight bytes of `buf`, read
/// as a little-endian integer. The outside function panics on a shorter
/// buffer, which `requires` leaves out.
#[verifier::external_body]
fn read_u64_le(buf: &Vec<u8>) -> (value: u64)
    requires
        buf@.len() >= 8,
    ensures
        value == le_u64(buf@.subrange(0, 8)),
{
    LittleEndian::read_u64(buf)
}

/// `byteorder::LittleEndian::write_u64`: overwrites the first eight bytes of
/// `buf` with `value` in little-endian order and leaves the rest as it was.
/// The outside function panics on a shorter buffer, which `requires` leaves
/// out.
#[verifier::external_body]
fn write_u64_le(buf: &mut Vec<u8>, value: u64)
    requires
        old(buf)@.len() >= 8,
    ensures
        final(buf)@ == le_bytes(value) + old(buf)@.subrange(8, old(buf)@.len() as int),
{
    LittleEndian::write_u64(buf, value)
}

/// The bytes under which `value` is stored.
pub fn encode_u64(value: u64) -> (bytes: Vec<u8>)
    ensures
        bytes@ == le_bytes(value),
{
    let mut bytes = vec![0u8; 8];
    write_u64_le(&mut bytes, value);
    bytes
}

/// What a stored value holds: its bytes, or none when the key is absent.
pub open spec fn stored_bytes(stored: Option<Vec<u8>>) -> Option<Seq<u8>> {
    match stored {
        Some(bytes) => Some(bytes@),
        None => None,
    }
}

/// How a stored value reads as an integer: an absent key reads as zero, eight
/// bytes read as the integer they spell, and any other length is a fault.
pub open spec fn u64_reading(stored: Option<Seq<u8>>) -> Result<u64, DecodeFault> {
    match stored {
        None => Ok(0u64),
        Some(bytes) => if bytes.len() == 8 {
            Ok(le_u64(bytes) as u64)
        } else {
            Err(DecodeFault::BadLength { len: bytes.len() as usize })
        },
    }
}

/// Reads a stored value as an integer.
pub fn decode_u64(stored: Option<Vec<u8>>) -> (value: Result<u64, DecodeFault>)
    ensures
        value == u64_reading(stored_bytes(stored)),
{
    let bytes = match stored {
        Some(bytes) => bytes,
        None => {
            let zeros = vec![0u8; 8];
            assert(le_u64(zeros@.subrange(0, 8)) == 0);
            return Ok(read_u64_le(&zeros));
        },
    };
    if bytes.len() != U64_WIDTH {
        return Err(DecodeFault::BadLength { len: bytes.len() });
    }
    assert(bytes@.subrange(0, 8) =~= bytes@);
    proof {
        lemma_le_u64_fits(bytes@);
    }
    Ok(read_u64_le(&bytes))
}

/// `n` is the length of the longest prefix of `bytes` that is valid UTF-8.
pub open spec fn is_valid_up_to(bytes: Seq<u8>, n: int) -> bool {
    &&& 0 <= n <= bytes.len()
    &&& valid_utf8(bytes.subrange(0, n))
    &&& forall|m: int| n < m <= bytes.len() ==> !valid_utf8(#[trigger] bytes.subrange(0, m))
}

/// At most one length is that of the longest valid prefix.
pub proof fn lemma_valid_up_to_unique(bytes: Seq<u8>, n: int, m: int)
    requires
        is_valid_up_to(bytes, n),
        is_valid_up_to(bytes, m),
    ensures
        n == m,
{
}

/// `std::str::from_utf8`, with its error reduced to `Utf8Error::valid_up_to`:
/// the bytes as text when they are valid UTF-8, else the length of their
/// longest valid prefix.
#[verifier::external_body]
fn check_utf8(bytes: &Vec<u8>) -> (checked: Result<&str, usize>)
    ensures
        match checked {
            Ok(text) => valid_utf8(bytes@) && text.spec_bytes() == bytes@,
            Err(n) => !valid_utf8(bytes@) && is_valid_up_to(bytes@, n as int),
        },
{
    std::str::from_utf8(bytes).map_err(|e| e.valid_up_to())
}

/// The bytes that are read as text: those stored, or none for an absent key.
pub open spec fn bytes_or_empty(stored: Option<Seq<u8>>) -> Seq<u8> {
    match stored {
        Some(bytes) => bytes,
        None => Seq::empty(),
    }
}

/// How a stored value reads as text: an absent key reads as the empty string,
/// valid UTF-8 reads as the characters it encodes, and nothing else reads.
pub open spec fn text_reading(stored: Option<Seq<u8>>) -> Option<Seq<char>> {
    if valid_utf8(bytes_or_empty(stored)) {
        Some(decode_utf8(bytes_or_empty(stored)))
    } else {
        None
    }
}

/// Reads a stored value as text. Bytes that are not UTF-8 give the fault
/// `InvalidUtf8`, with the length of their longest valid prefix.
pub fn decode_utf8_text(stored: Option<Vec<u8>>) -> (text: Result<String, DecodeFault>)
    ensures
        match text {
            Ok(s) => text_reading(stored_bytes(stored)) == Some(s@),
            Err(fault) => {
                &&& text_reading(stored_bytes(stored)) is None
                &&& fault matches DecodeFault::InvalidUtf8 { valid_up_to }
                &&& is_valid_up_to(bytes_or_empty(stored_bytes(stored)), valid_up_to as int)
            },
        },
{
    let bytes = match stored {
        Some(bytes) => bytes,
        None => Vec::new(),
    };
    match check_utf8(&bytes) {
        Ok(text) => {
            proof {
                vstd::utf8::encode_utf8_decode_utf8(text@);
            }
            Ok(text.to_owned())
        },
        Err(valid_up_to) => Err(DecodeFault::InvalidUtf8 { valid_up_to }),
    }
}

/// An absent key reads as the empty string.
pub proof fn lemma_absent_reads_as_empty_text()
    ensures
        text_reading(None) == Some(Seq::<char>::empty()),
{
    assert(valid_utf8(Seq::<u8>::empty()));
    assert(decode_utf8(Seq::<u8>::empty()) =~= Seq::<char>::empty());
}

/// Text that was encoded reads back as itself.
pub proof fn lemma_encoded_text_reads_back(text: Seq<char>)
    ensures
        text_reading(Some(encode_utf8(text))) == Some(text),
{
    vstd::utf8::encode_utf8_valid_utf8(text);
    vstd::utf8::encode_utf8_decode_utf8(text);
}

/// The bytes under which `text` is stored.
pub fn encode_utf8_text(text: &str) -> (bytes: Vec<u8>)
    ensures
        bytes@ == encode_utf8(text@),
{
    vstd::slice::slice_to_vec(text.as_bytes())
}

} // verus!
