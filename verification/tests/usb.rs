use bluepill::usb::{find_bytes, usb_bootloader_reply, usb_toggle_requested};

#[test]
fn toggle_in_message() {
    let mut buf = [0u8; 64];
    buf[..6].copy_from_slice(b"toggle");
    assert!(usb_toggle_requested(&buf, 6));
    let msg = b"please toggle now";
    buf[..msg.len()].copy_from_slice(msg);
    assert!(usb_toggle_requested(&buf, msg.len()));
}

#[test]
fn toggle_needs_whole_word_within_count() {
    let mut buf = [0u8; 64];
    buf[..6].copy_from_slice(b"toggle");
    assert!(!usb_toggle_requested(&buf, 5));
    assert!(!usb_toggle_requested(&buf, 0));
    buf[..6].copy_from_slice(b"Toggle");
    assert!(!usb_toggle_requested(&buf, 6));
}

#[test]
fn toggle_needs_valid_utf8() {
    let mut buf = [0u8; 64];
    buf[..7].copy_from_slice(b"toggle\xff");
    assert!(!usb_toggle_requested(&buf, 7));
    assert!(usb_toggle_requested(&buf, 6));
    let text = "é toggle";
    buf[..text.len()].copy_from_slice(text.as_bytes());
    assert!(usb_toggle_requested(&buf, text.len()));
}

#[test]
fn bootloader_greets_hi() {
    let mut buf = [0u8; 8];
    buf[..2].copy_from_slice(b"hi");
    assert_eq!(usb_bootloader_reply(&buf, 2), Some(*b"hello"));
    buf[..7].copy_from_slice(b"oh hi!\n");
    assert_eq!(usb_bootloader_reply(&buf, 7), Some(*b"hello"));
}

#[test]
fn bootloader_silent_otherwise() {
    let mut buf = [0u8; 8];
    buf[..2].copy_from_slice(b"hi");
    assert_eq!(usb_bootloader_reply(&buf, 1), None);
    assert_eq!(usb_bootloader_reply(&buf, 0), None);
    buf[..3].copy_from_slice(b"h\x80i");
    assert_eq!(usb_bootloader_reply(&buf, 3), None);
    buf[..3].copy_from_slice(b"hi\xc0");
    assert_eq!(usb_bootloader_reply(&buf, 3), None);
}

#[test]
fn find_bytes_matches_str_contains() {
    let cases: [(&str, &str); 7] = [
        ("", ""),
        ("abc", ""),
        ("", "a"),
        ("abc", "abc"),
        ("abcabd", "abd"),
        ("aab", "ab"),
        ("ab", "abc"),
    ];
    for (h, n) in cases {
        assert_eq!(find_bytes(h.as_bytes(), n.as_bytes()), h.contains(n), "{h:?} {n:?}");
    }
}
