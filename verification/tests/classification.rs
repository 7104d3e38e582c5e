use sc_compression::signature::classify;
use sc_compression::{new_from_buffer, ScError, Signature};

fn with_prefix(prefix: &[u8], len: usize) -> Vec<u8> {
    let mut buf = prefix.to_vec();
    buf.resize(len, 0);
    buf
}

fn container(tag: &[u8], len: usize) -> Vec<u8> {
    let mut buf = with_prefix(b"SC", len);
    buf[26..26 + tag.len()].copy_from_slice(tag);
    buf
}

#[test]
fn stream_magic_is_lzma() {
    let buf = vec![0x5d, 0x00, 0x00, 0x04, 0x00, 0x12, 0x00, 0x00, 0x00, 0x01];
    assert_eq!(classify(&buf), Ok(Signature::LZMA));
}

#[test]
fn stream_magic_alone_is_lzma() {
    assert_eq!(classify(&[0x5d, 0x00, 0x00]), Ok(Signature::LZMA));
}

#[test]
fn sc_prefix_is_container() {
    assert_eq!(classify(&with_prefix(b"SC", 40)), Ok(Signature::SC));
}

#[test]
fn sc_prefix_with_sclz_is_extended_container() {
    assert_eq!(classify(&container(b"SCLZ", 40)), Ok(Signature::SCLZ));
}

#[test]
fn sig_prefix_is_signed() {
    assert_eq!(classify(&with_prefix(b"Sig:", 80)), Ok(Signature::SIG));
}

#[test]
fn other_prefix_is_none() {
    assert_eq!(classify(b"hello world"), Ok(Signature::NONE));
}

#[test]
fn tags_are_read_without_regard_to_case() {
    assert_eq!(classify(&with_prefix(b"sc", 40)), Ok(Signature::SC));
    assert_eq!(classify(&with_prefix(b"sC", 40)), Ok(Signature::SC));
    assert_eq!(classify(&container(b"sclz", 40)), Ok(Signature::SCLZ));
    assert_eq!(classify(&container(b"sClZ", 40)), Ok(Signature::SCLZ));
    assert_eq!(classify(&with_prefix(b"sig:", 80)), Ok(Signature::SIG));
    assert_eq!(classify(&with_prefix(b"SIG:", 80)), Ok(Signature::SIG));
}

#[test]
fn magic_is_read_before_the_tags() {
    // The magic is not text, yet nothing is decoded before it is found.
    assert_eq!(classify(&[0x5d, 0x00, 0x00, 0xff, 0xff]), Ok(Signature::LZMA));
}

#[test]
fn near_misses_are_none() {
    assert_eq!(classify(&with_prefix(b"SD", 40)), Ok(Signature::NONE));
    assert_eq!(classify(&with_prefix(b"Sig;", 80)), Ok(Signature::NONE));
    assert_eq!(classify(&[0x5d, 0x00, 0x01, 0x00]), Ok(Signature::NONE));
    assert_eq!(classify(&[0x5d, 0x01, 0x00, 0x00]), Ok(Signature::NONE));
}

#[test]
fn container_with_other_bytes_at_26_is_plain() {
    assert_eq!(classify(&container(b"SCLY", 40)), Ok(Signature::SC));
    assert_eq!(classify(&container(b"SCL", 40)), Ok(Signature::SC));
}

#[test]
fn buffer_of_two_bytes_is_malformed() {
    assert_eq!(classify(b"SC"), Err(ScError::MalformedInput));
    assert_eq!(classify(&[0x5d, 0x00]), Err(ScError::MalformedInput));
    assert_eq!(classify(&[0x00, 0x00]), Err(ScError::MalformedInput));
}

#[test]
fn shorter_buffers_are_malformed() {
    assert_eq!(classify(&[]), Err(ScError::MalformedInput));
    assert_eq!(classify(b"S"), Err(ScError::MalformedInput));
}

#[test]
fn buffer_of_three_bytes_needs_a_fourth_for_the_signed_tag() {
    assert_eq!(classify(b"Sig"), Err(ScError::MalformedInput));
    assert_eq!(classify(b"abc"), Err(ScError::MalformedInput));
    assert_eq!(classify(b"SC\0"), Ok(Signature::SC));
}

#[test]
fn container_of_30_bytes_is_plain() {
    let mut buf = with_prefix(b"SC", 30);
    buf[26..30].copy_from_slice(b"SCLZ");
    assert_eq!(classify(&buf), Ok(Signature::SC));
}

#[test]
fn container_of_31_bytes_is_extended() {
    assert_eq!(classify(&container(b"SCLZ", 31)), Ok(Signature::SCLZ));
}

#[test]
fn prefix_that_is_no_text_fails_to_decode() {
    assert_eq!(classify(&[0xff, 0xfe, 0x00, 0x00]), Err(ScError::Utf8DecodeFailure));
    assert_eq!(classify(&[0x80, 0x41, 0x42, 0x43]), Err(ScError::Utf8DecodeFailure));
    // A character cut in two after the second byte.
    assert_eq!(classify(&[0x41, 0xc3, 0xa9, 0x42]), Err(ScError::Utf8DecodeFailure));
    // The xz magic.
    assert_eq!(classify(&[0xfd, 0x37, 0x7a, 0x58, 0x5a, 0x00]), Err(ScError::Utf8DecodeFailure));
}

#[test]
fn four_bytes_that_are_no_text_fail_to_decode() {
    // The first two bytes are the text "é", the four are no text.
    assert_eq!(classify(&[0xc3, 0xa9, 0xc3, 0x28]), Err(ScError::Utf8DecodeFailure));
    assert_eq!(classify(&[0x41, 0x42, 0xff, 0x00]), Err(ScError::Utf8DecodeFailure));
}

#[test]
fn text_beyond_ascii_is_none() {
    assert_eq!(classify(&[0xc3, 0xa9, 0xc3, 0xa9, 0x00]), Ok(Signature::NONE));
    assert_eq!(classify("日本".as_bytes()), Err(ScError::Utf8DecodeFailure));
    assert_eq!(classify("éa日本".as_bytes()), Err(ScError::Utf8DecodeFailure));
    assert_eq!(classify("éab".as_bytes()), Ok(Signature::NONE));
}

#[test]
fn container_with_no_text_at_26_fails_to_decode() {
    assert_eq!(classify(&container(&[0xff, 0x00, 0x00, 0x00], 40)), Err(ScError::Utf8DecodeFailure));
    // In a buffer of 30 bytes these four are never read.
    let mut buf = with_prefix(b"SC", 30);
    buf[26] = 0xff;
    assert_eq!(classify(&buf), Ok(Signature::SC));
}

#[test]
fn read_signature_classifies_the_buffer() {
    assert_eq!(new_from_buffer(container(b"SCLZ", 64)).read_signature(), Ok(Signature::SCLZ));
    assert_eq!(new_from_buffer(vec![0x5d, 0, 0]).read_signature(), Ok(Signature::LZMA));
    assert_eq!(new_from_buffer(vec![1, 2]).read_signature(), Err(ScError::MalformedInput));
    assert_eq!(new_from_buffer(b"plain text".to_vec()).read_signature(), Ok(Signature::NONE));
}
