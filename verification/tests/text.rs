use spice::text::{
    copy_plain, copy_written, declare, declare_size, flag, from_native, measure, out_buffer,
    to_native, TERMINATOR, UNREADABLE,
};
use spice::MAX_LEN_OUT;

fn buffer_with(text: &[u8], padding: u8) -> Vec<u8> {
    let mut buffer = text.to_vec();
    buffer.push(0);
    buffer.resize(MAX_LEN_OUT, padding);
    buffer
}

#[test]
fn max_len_out_is_one_hundred() {
    assert_eq!(MAX_LEN_OUT, 100);
    assert_eq!(TERMINATOR, 0);
}

#[test]
fn to_native_appends_the_terminator() {
    assert_eq!(to_native("ALL"), vec![b'A', b'L', b'L', 0]);
    assert_eq!(to_native(""), vec![0]);
}

#[test]
fn to_native_keeps_the_bytes_of_the_text() {
    assert_eq!(to_native("é"), vec![0xC3, 0xA9, 0]);
    assert_eq!(to_native("a\0b"), vec![b'a', 0, b'b', 0]);
}

#[test]
fn out_buffer_is_blank() {
    let buffer = out_buffer();
    assert_eq!(buffer.len(), 100);
    assert!(buffer.iter().all(|byte| *byte == 0));
}

#[test]
fn declare_keeps_a_length_within_the_buffer() {
    assert_eq!(declare(0), 0);
    assert_eq!(declare(1), 1);
    assert_eq!(declare(40), 40);
    assert_eq!(declare(100), 100);
}

#[test]
fn declare_never_goes_below_zero() {
    assert_eq!(declare(-1), 0);
    assert_eq!(declare(i32::MIN), 0);
}

#[test]
fn declare_never_goes_beyond_the_buffer() {
    assert_eq!(declare(101), 100);
    assert_eq!(declare(i32::MAX), 100);
}

#[test]
fn flag_is_true_for_anything_but_zero() {
    assert!(!flag(0));
    assert!(flag(1));
    assert!(flag(-1));
    assert!(flag(2));
    assert!(flag(i32::MIN));
}

#[test]
fn measure_stops_at_the_first_terminator() {
    assert_eq!(measure(&vec![b'a', b'b', 0, b'c', 0], 5), 2);
    assert_eq!(measure(&vec![0, b'a'], 2), 0);
}

#[test]
fn measure_stops_at_the_limit() {
    assert_eq!(measure(&vec![b'a', b'b', b'c', 0], 2), 2);
    assert_eq!(measure(&vec![b'a', b'b', b'c', 0], 0), 0);
}

#[test]
fn measure_stops_at_the_end_of_the_buffer() {
    assert_eq!(measure(&vec![b'a', b'b', b'c'], 10), 3);
    assert_eq!(measure(&Vec::new(), 10), 0);
}

#[test]
fn copy_written_leaves_the_padding_behind() {
    let buffer = buffer_with(b"naif0012.tls", b'#');
    assert_eq!(copy_written(&buffer, MAX_LEN_OUT), b"naif0012.tls".to_vec());
    assert_eq!(copy_written(&buffer, 4), b"naif".to_vec());
    assert_eq!(copy_written(&buffer, 0), Vec::<u8>::new());
}

#[test]
fn from_native_truncates_at_the_terminator() {
    let buffer = buffer_with(b"2027-MAR-23 16:00:00", b' ');
    assert_eq!(from_native(&buffer, MAX_LEN_OUT), "2027-MAR-23 16:00:00");
}

#[test]
fn from_native_truncates_at_the_declared_length() {
    let buffer = buffer_with(b"2027-MAR-23 16:00:00", b' ');
    assert_eq!(from_native(&buffer, 8), "2027-MAR");
}

#[test]
fn from_native_takes_a_full_buffer_whole() {
    let buffer = vec![b'x'; 100];
    assert_eq!(from_native(&buffer, 100), "x".repeat(100));
    assert_eq!(from_native(&buffer, 250), "x".repeat(100));
}

#[test]
fn from_native_reads_a_blank_buffer_as_empty() {
    assert_eq!(from_native(&out_buffer(), MAX_LEN_OUT), "");
}

#[test]
fn from_native_decodes_utf8() {
    let buffer = buffer_with("kernels/Græenland.tm".as_bytes(), 0);
    assert_eq!(from_native(&buffer, MAX_LEN_OUT), "kernels/Græenland.tm");
}

#[test]
fn from_native_takes_what_is_not_utf8_byte_by_byte() {
    assert_eq!(from_native(&vec![b'a', 0xFF, b'b', 0, b'c'], 5), "a?b");
    assert_eq!(from_native(&vec![0xC3], 1), "?");
    assert_eq!(from_native(&vec![b'a', 0xC3, b'(', 0], 4), "a?(");
    assert_eq!(from_native(&vec![0xC3, 0xA9, 0x80, 0], 4), "???");
}

#[test]
fn from_native_takes_utf8_cut_in_the_middle_byte_by_byte() {
    let buffer = vec![b'n', 0xC3, 0xA9, 0];
    assert_eq!(from_native(&buffer, 3), "né");
    assert_eq!(from_native(&buffer, 2), "n?");
}

#[test]
fn text_that_is_not_utf8_does_not_grow() {
    let text = from_native(&vec![0xFF; 100], 100);
    assert_eq!(text, "?".repeat(100));
    assert_eq!(text.len(), 100);
}

#[test]
fn copy_plain_keeps_ascii_only() {
    assert_eq!(UNREADABLE, b'?');
    assert_eq!(copy_plain(&vec![0, b'a', 0x7F, 0x80, 0xFF]), vec![0, b'a', 0x7F, b'?', b'?']);
    assert_eq!(copy_plain(&Vec::new()), Vec::<u8>::new());
}

#[test]
fn declare_size_keeps_a_length_within_the_buffer() {
    assert_eq!(declare_size(0), 0);
    assert_eq!(declare_size(17), 17);
    assert_eq!(declare_size(100), 100);
    assert_eq!(declare_size(101), 100);
    assert_eq!(declare_size(usize::MAX), 100);
}

#[test]
fn text_comes_back_as_it_went() {
    for text in ["", "ALL", "naif0012.tls", "kernels/Græenland.tm"] {
        let mut buffer = to_native(text);
        buffer.resize(MAX_LEN_OUT, b'?');
        assert_eq!(from_native(&buffer, MAX_LEN_OUT), text);
    }
}

#[test]
fn text_read_back_is_never_longer_than_a_buffer() {
    for len in [0usize, 1, 99, 100, 101, 500] {
        let buffer = vec![b'x'; len];
        let text = from_native(&buffer, MAX_LEN_OUT);
        assert!(text.len() <= MAX_LEN_OUT);
        assert_eq!(text.len(), len.min(MAX_LEN_OUT));
        assert!(!text.contains('\0'));
    }
}
