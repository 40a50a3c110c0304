use missing_ctrl::wide::{copy_wide_string, encode_utf16, wide_string};

#[test]
fn encodes_ascii_and_surrogate_pairs() {
    assert_eq!(encode_utf16("Ab"), vec![0x41, 0x62]);
    assert_eq!(encode_utf16(""), Vec::<u16>::new());
    assert_eq!(encode_utf16("é€"), vec![0xE9, 0x20AC]);
    assert_eq!(encode_utf16("\u{1F600}"), vec![0xD83D, 0xDE00]);
    assert_eq!(encode_utf16("\u{10FFFF}"), vec![0xDBFF, 0xDFFF]);
    let text = "Start \u{1F600} with Windows";
    assert_eq!(encode_utf16(text), text.encode_utf16().collect::<Vec<u16>>());
}

#[test]
fn wide_string_is_zero_terminated() {
    assert_eq!(wide_string("Hi"), vec![0x48, 0x69, 0]);
    assert_eq!(wide_string(""), vec![0]);
}

#[test]
fn copy_fits_and_keeps_the_rest() {
    let mut buffer = [0u16; 8];
    copy_wide_string(&mut buffer, "Ctrl");
    assert_eq!(buffer, [0x43, 0x74, 0x72, 0x6C, 0, 0, 0, 0]);
}

#[test]
fn copy_truncates_and_leaves_last_unit() {
    let mut buffer = [9u16; 4];
    copy_wide_string(&mut buffer, "Hello");
    assert_eq!(buffer, [0x48, 0x65, 0x6C, 9]);
}

#[test]
fn copy_into_tiny_buffers_writes_nothing() {
    let mut one = [7u16; 1];
    copy_wide_string(&mut one, "Hello");
    assert_eq!(one, [7]);
    let mut none: [u16; 0] = [];
    copy_wide_string(&mut none, "Hello");
    assert_eq!(none.len(), 0);
}

#[test]
fn copy_tooltip_text() {
    let mut tip = [0u16; 128];
    copy_wide_string(&mut tip, "The Missing Ctrl");
    let expected: Vec<u16> = "The Missing Ctrl".encode_utf16().collect();
    assert_eq!(&tip[..16], expected.as_slice());
    assert!(tip[16..].iter().all(|&u| u == 0));
}
