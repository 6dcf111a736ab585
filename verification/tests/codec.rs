use imangry::codec::{decode_u64, decode_utf8_text, encode_u64, encode_utf8_text, U64_WIDTH};
use imangry::error::DecodeFault;

#[test]
fn encode_u64_is_little_endian() {
    assert_eq!(encode_u64(0), vec![0u8; 8]);
    assert_eq!(encode_u64(41), vec![41, 0, 0, 0, 0, 0, 0, 0]);
    assert_eq!(encode_u64(258), vec![2, 1, 0, 0, 0, 0, 0, 0]);
    assert_eq!(encode_u64(1_000_000), vec![0x40, 0x42, 0x0f, 0, 0, 0, 0, 0]);
    assert_eq!(
        encode_u64(0x0102_0304_0506_0708),
        vec![8, 7, 6, 5, 4, 3, 2, 1]
    );
    assert_eq!(encode_u64(u64::MAX), vec![0xff; 8]);
    assert_eq!(encode_u64(7).len(), U64_WIDTH);
}

#[test]
fn decode_u64_reads_little_endian() {
    assert_eq!(decode_u64(Some(vec![41, 0, 0, 0, 0, 0, 0, 0])), Ok(41));
    assert_eq!(decode_u64(Some(vec![2, 1, 0, 0, 0, 0, 0, 0])), Ok(258));
    assert_eq!(
        decode_u64(Some(vec![8, 7, 6, 5, 4, 3, 2, 1])),
        Ok(0x0102_0304_0506_0708)
    );
    assert_eq!(decode_u64(Some(vec![0xff; 8])), Ok(u64::MAX));
}

#[test]
fn decode_u64_of_absent_key_is_zero() {
    assert_eq!(decode_u64(None), Ok(0));
}

#[test]
fn decode_u64_rejects_every_other_length() {
    assert_eq!(
        decode_u64(Some(vec![])),
        Err(DecodeFault::BadLength { len: 0 })
    );
    assert_eq!(
        decode_u64(Some(vec![1, 2, 3])),
        Err(DecodeFault::BadLength { len: 3 })
    );
    assert_eq!(
        decode_u64(Some(vec![0; 7])),
        Err(DecodeFault::BadLength { len: 7 })
    );
    assert_eq!(
        decode_u64(Some(vec![0; 9])),
        Err(DecodeFault::BadLength { len: 9 })
    );
    assert_eq!(
        decode_u64(Some(vec![1; 4096])),
        Err(DecodeFault::BadLength { len: 4096 })
    );
}

#[test]
fn u64_round_trips_through_its_bytes() {
    for value in [0u64, 1, 41, 255, 256, 65_535, 65_536, 1 << 32, u64::MAX - 1, u64::MAX] {
        assert_eq!(decode_u64(Some(encode_u64(value))), Ok(value));
    }
}

#[test]
fn eight_bytes_round_trip_through_their_integer() {
    let samples: [[u8; 8]; 4] = [
        [0, 0, 0, 0, 0, 0, 0, 0],
        [1, 2, 3, 4, 5, 6, 7, 8],
        [0xff, 0, 0xff, 0, 0xff, 0, 0xff, 0],
        [0x80, 0x7f, 0x01, 0xfe, 0x10, 0xef, 0x55, 0xaa],
    ];
    for bytes in samples {
        let value = decode_u64(Some(bytes.to_vec())).unwrap();
        assert_eq!(encode_u64(value), bytes.to_vec());
    }
}

#[test]
fn decode_utf8_of_absent_key_is_empty() {
    assert_eq!(decode_utf8_text(None), Ok(String::new()));
    assert_eq!(decode_utf8_text(Some(vec![])), Ok(String::new()));
}

#[test]
fn decode_utf8_reads_valid_text() {
    assert_eq!(
        decode_utf8_text(Some(b"hello".to_vec())),
        Ok("hello".to_string())
    );
    assert_eq!(
        decode_utf8_text(Some(vec![0xe2, 0x82, 0xac, 0x20, 0xc3, 0xa9])),
        Ok("\u{20ac} \u{e9}".to_string())
    );
    assert_eq!(
        decode_utf8_text(Some(vec![0xf0, 0x9f, 0x98, 0x80])),
        Ok("\u{1f600}".to_string())
    );
}

#[test]
fn decode_utf8_names_the_longest_valid_prefix() {
    assert_eq!(
        decode_utf8_text(Some(vec![0xff])),
        Err(DecodeFault::InvalidUtf8 { valid_up_to: 0 })
    );
    assert_eq!(
        decode_utf8_text(Some(vec![b'a', b'b', b'c', 0xff, b'd'])),
        Err(DecodeFault::InvalidUtf8 { valid_up_to: 3 })
    );
    // A scalar cut short at the end.
    assert_eq!(
        decode_utf8_text(Some(vec![b'a', 0xe2, 0x82])),
        Err(DecodeFault::InvalidUtf8 { valid_up_to: 1 })
    );
    // A surrogate and an overlong encoding are not UTF-8.
    assert_eq!(
        decode_utf8_text(Some(vec![0xed, 0xa0, 0x80])),
        Err(DecodeFault::InvalidUtf8 { valid_up_to: 0 })
    );
    assert_eq!(
        decode_utf8_text(Some(vec![b'x', 0xc0, 0x80])),
        Err(DecodeFault::InvalidUtf8 { valid_up_to: 1 })
    );
}

#[test]
fn encode_utf8_text_gives_the_utf8_bytes() {
    assert_eq!(encode_utf8_text(""), Vec::<u8>::new());
    assert_eq!(encode_utf8_text("hi"), vec![b'h', b'i']);
    assert_eq!(encode_utf8_text("\u{20ac}"), vec![0xe2, 0x82, 0xac]);
}

#[test]
fn text_round_trips_through_its_bytes() {
    for text in ["", "a", "hello world", "\u{e9}t\u{e9}", "\u{4f60}\u{597d}", "\u{1f600}!"] {
        assert_eq!(
            decode_utf8_text(Some(encode_utf8_text(text))),
            Ok(text.to_string())
        );
    }
}
