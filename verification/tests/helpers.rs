use sc_compression::bytes::{
    push_all, push_be_u64, push_zeros, read_le_u32, remove_range, rotate_right,
};
use sc_compression::framing::{expand_size_field, shorten_size_field};
use sc_compression::text::{is_text, spells_tag, to_ascii_lower};
use sc_compression::ScError;

#[test]
fn le_u32_reads_least_significant_byte_first() {
    assert_eq!(read_le_u32(&[0x78, 0x56, 0x34, 0x12], 0), 0x1234_5678);
    assert_eq!(read_le_u32(&[0xaa, 0x01, 0x00, 0x00, 0x00, 0xbb], 1), 1);
    assert_eq!(read_le_u32(&[0, 0, 0, 0], 0), 0);
    assert_eq!(read_le_u32(&[0xff, 0xff, 0xff, 0xff], 0), u32::MAX);
    assert_eq!(read_le_u32(&[0x00, 0x00, 0x00, 0x80], 0), 0x8000_0000);
}

#[test]
fn be_u64_writes_most_significant_byte_first() {
    let mut out = vec![0xaa];
    push_be_u64(&mut out, 0x0102_0304_0506_0708);
    assert_eq!(out, vec![0xaa, 1, 2, 3, 4, 5, 6, 7, 8]);
    let mut out = Vec::new();
    push_be_u64(&mut out, 18);
    assert_eq!(out, vec![0, 0, 0, 0, 0, 0, 0, 18]);
    let mut out = Vec::new();
    push_be_u64(&mut out, u64::MAX);
    assert_eq!(out, vec![0xff; 8]);
    let mut out = Vec::new();
    push_be_u64(&mut out, 0x1234_5678_9abc_def0);
    assert_eq!(out, 0x1234_5678_9abc_def0u64.to_be_bytes().to_vec());
}

#[test]
fn zeros_and_copies_are_appended() {
    let mut out = vec![7];
    push_zeros(&mut out, 3);
    push_all(&mut out, &[1, 2]);
    push_zeros(&mut out, 0);
    push_all(&mut out, &[]);
    assert_eq!(out, vec![7, 0, 0, 0, 1, 2]);
}

#[test]
fn remove_range_closes_the_gap() {
    let mut buf: Vec<u8> = (0..12).collect();
    remove_range(&mut buf, 5, 9);
    assert_eq!(buf, vec![0, 1, 2, 3, 4, 9, 10, 11]);
    let mut same_as_drain: Vec<u8> = (0..12).collect();
    same_as_drain.drain(5..9);
    assert_eq!(buf, same_as_drain);
}

#[test]
fn remove_range_at_the_ends() {
    let mut buf = vec![1, 2, 3];
    remove_range(&mut buf, 0, 0);
    assert_eq!(buf, vec![1, 2, 3]);
    remove_range(&mut buf, 3, 3);
    assert_eq!(buf, vec![1, 2, 3]);
    remove_range(&mut buf, 1, 3);
    assert_eq!(buf, vec![1]);
    remove_range(&mut buf, 0, 1);
    assert_eq!(buf, Vec::<u8>::new());
}

#[test]
fn rotate_right_moves_the_tail_to_the_front() {
    let mut buf: Vec<u8> = (0..16).collect();
    rotate_right(&mut buf, 9, 4);
    assert_eq!(buf, vec![0, 1, 2, 3, 4, 5, 6, 7, 8, 12, 13, 14, 15, 9, 10, 11]);
    let mut same_as_std: Vec<u8> = (0..16).collect();
    same_as_std[9..].rotate_right(4);
    assert_eq!(buf, same_as_std);
}

#[test]
fn rotate_right_at_the_ends() {
    let mut buf = vec![1, 2, 3, 4];
    rotate_right(&mut buf, 0, 0);
    assert_eq!(buf, vec![1, 2, 3, 4]);
    rotate_right(&mut buf, 0, 4);
    assert_eq!(buf, vec![1, 2, 3, 4]);
    rotate_right(&mut buf, 4, 0);
    assert_eq!(buf, vec![1, 2, 3, 4]);
    rotate_right(&mut buf, 0, 1);
    assert_eq!(buf, vec![4, 1, 2, 3]);
    rotate_right(&mut buf, 1, 2);
    assert_eq!(buf, vec![4, 2, 3, 1]);
}

#[test]
fn size_field_is_widened_with_zeros_where_a_size_is_recorded() {
    let mut body = vec![0x5d, 0, 0, 4, 0, 0x12, 0, 0, 0, 0xa1, 0xa2, 0xa3];
    assert_eq!(expand_size_field(&mut body), Ok(()));
    assert_eq!(body, vec![0x5d, 0, 0, 4, 0, 0x12, 0, 0, 0, 0, 0, 0, 0, 0xa1, 0xa2, 0xa3]);
}

#[test]
fn size_field_is_widened_with_ff_where_no_size_is_recorded() {
    let mut body = vec![0x5d, 0, 0, 4, 0, 0xff, 0xff, 0xff, 0xff, 0xa1, 0xa2];
    assert_eq!(expand_size_field(&mut body), Ok(()));
    assert_eq!(
        body,
        vec![0x5d, 0, 0, 4, 0, 0xff, 0xff, 0xff, 0xff, 0xff, 0xff, 0xff, 0xff, 0xa1, 0xa2]
    );
}

#[test]
fn size_field_that_is_nearly_unknown_counts_as_recorded() {
    let mut body = vec![0x5d, 0, 0, 4, 0, 0xff, 0xff, 0xff, 0xfe];
    assert_eq!(expand_size_field(&mut body), Ok(()));
    assert_eq!(body, vec![0x5d, 0, 0, 4, 0, 0xff, 0xff, 0xff, 0xfe, 0, 0, 0, 0]);
}

#[test]
fn body_shorter_than_its_header_is_not_widened() {
    let mut body = vec![0x5d, 0, 0, 4, 0, 0x12, 0, 0];
    assert_eq!(expand_size_field(&mut body), Err(ScError::MalformedInput));
    assert_eq!(body, vec![0x5d, 0, 0, 4, 0, 0x12, 0, 0]);
}

#[test]
fn size_field_is_narrowed_by_the_four_bytes_at_offset_5() {
    let mut stream: Vec<u8> = (0..16).collect();
    assert_eq!(shorten_size_field(&mut stream), Ok(()));
    assert_eq!(stream, vec![0, 1, 2, 3, 4, 9, 10, 11, 12, 13, 14, 15]);
    let mut least: Vec<u8> = (0..9).collect();
    assert_eq!(shorten_size_field(&mut least), Ok(()));
    assert_eq!(least, vec![0, 1, 2, 3, 4]);
}

#[test]
fn stream_shorter_than_nine_bytes_is_not_narrowed() {
    let mut stream: Vec<u8> = (0..8).collect();
    assert_eq!(shorten_size_field(&mut stream), Err(ScError::MalformedInput));
    assert_eq!(stream, (0..8).collect::<Vec<u8>>());
}

#[test]
fn ascii_capitals_are_lowered() {
    assert_eq!(to_ascii_lower(b'A'), b'a');
    assert_eq!(to_ascii_lower(b'Z'), b'z');
    assert_eq!(to_ascii_lower(b'a'), b'a');
    assert_eq!(to_ascii_lower(b'@'), b'@');
    assert_eq!(to_ascii_lower(b'['), b'[');
    assert_eq!(to_ascii_lower(b':'), b':');
    assert_eq!(to_ascii_lower(0xc9), 0xc9);
    for b in 0..=255u8 {
        assert_eq!(to_ascii_lower(b), b.to_ascii_lowercase());
    }
}

#[test]
fn tags_are_spelled_in_any_case() {
    assert!(spells_tag(b"SCLZ", b"sclz"));
    assert!(spells_tag(b"sClz", b"sclz"));
    assert!(!spells_tag(b"SCL", b"sclz"));
    assert!(!spells_tag(b"SCLZ!", b"sclz"));
    assert!(!spells_tag(b"SCLY", b"sclz"));
    assert!(spells_tag(b"", b""));
    // Only the chunk is folded: a tag is written in lower case.
    assert!(!spells_tag(b"sc", b"SC"));
}

#[test]
fn text_is_well_formed_utf8() {
    assert!(is_text(b""));
    assert!(is_text(b"SC"));
    assert!(is_text("é".as_bytes()));
    assert!(!is_text(&[0xc3]));
    assert!(!is_text(&[0xff, 0xfe]));
    assert!(!is_text(&[0xed, 0xa0, 0x80]));
    assert!(!is_text(&[0xc0, 0x80]));
}
