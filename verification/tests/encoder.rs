use cept_pages::cept::Cept;

/// Counts the logical characters in an emitted byte stream: one per byte,
/// except that an alternate-charset invocation (0x19 plus diaeresis code
/// plus base letter, or 0x19 plus the sharp-s code) counts as one.
fn logical_chars(bytes: &[u8]) -> usize {
    let mut count: usize = 0;
    let mut i: usize = 0;
    while i < bytes.len() {
        if bytes[i] == 0x19 {
            if i + 1 < bytes.len() && bytes[i + 1] == 0x48 {
                i += 3;
            } else {
                i += 2;
            }
        } else {
            i += 1;
        }
        count += 1;
    }
    count
}

#[test]
fn add_str_ascii_is_identity_bytes() {
    let mut c = Cept::new();
    c.add_str("Hi");
    assert_eq!(c.bytes().as_slice(), &[0x48, 0x69]);
}

#[test]
fn add_str_umlaut_is_one_char_three_bytes() {
    let mut c = Cept::new();
    c.add_str("\u{e4}");
    assert_eq!(c.bytes().as_slice(), &[0x19, 0x48, 0x61]);
    assert_eq!(logical_chars(c.bytes()), 1);
}

#[test]
fn add_str_sharp_s_is_one_char_two_bytes() {
    let mut c = Cept::new();
    c.add_str("\u{df}");
    assert_eq!(c.bytes().as_slice(), &[0x19, 0x7b]);
    assert_eq!(logical_chars(c.bytes()), 1);
}

#[test]
fn add_str_translates_each_german_letter() {
    let mut c = Cept::new();
    c.add_str("\u{e4}\u{f6}\u{fc}\u{c4}\u{d6}\u{dc}");
    assert_eq!(
        c.bytes().as_slice(),
        &[
            0x19, 0x48, 0x61, 0x19, 0x48, 0x6f, 0x19, 0x48, 0x75, 0x19, 0x48, 0x41, 0x19, 0x48,
            0x4f, 0x19, 0x48, 0x55,
        ]
    );
    assert_eq!(logical_chars(c.bytes()), 6);
}

#[test]
fn add_str_substitutes_unsupported_characters() {
    let mut c = Cept::new();
    c.add_str("a\u{20ac}b");
    assert_eq!(c.bytes().as_slice(), &[0x61, 0x3f, 0x62]);
    assert_eq!(logical_chars(c.bytes()), 3);
}

#[test]
fn add_str_passes_line_control_through() {
    let mut c = Cept::new();
    c.add_str("a\r\nb");
    assert_eq!(c.bytes().as_slice(), &[0x61, 0x0d, 0x0a, 0x62]);
}

#[test]
fn append_concatenates_buffers() {
    let mut a = Cept::new();
    a.add_str("AB");
    let mut b = Cept::new();
    b.set_cursor(3, 4);
    b.add_str("\u{fc}");
    let expected: Vec<u8> = {
        let mut v = a.bytes().clone();
        v.extend_from_slice(b.bytes());
        v
    };
    a.append(&b);
    assert_eq!(a.bytes(), &expected);
}

#[test]
fn append_empty_fragments() {
    let mut a = Cept::new();
    let b = Cept::new();
    a.append(&b);
    assert!(a.bytes().is_empty());
    let mut c = Cept::new();
    c.add_str("x");
    let mut d = Cept::new();
    d.append(&c);
    assert_eq!(d.bytes().as_slice(), &[0x78]);
}

#[test]
fn set_cursor_emits_addressing_sequence() {
    let mut c = Cept::new();
    c.set_cursor(2, 1);
    assert_eq!(c.bytes().as_slice(), &[0x1f, 0x42, 0x41]);
}

#[test]
fn attribute_codes_are_the_fixed_sequences() {
    let mut c = Cept::new();
    c.set_palette(1);
    c.set_screen_bg_color_simple(4);
    c.set_line_bg_color_simple(4);
    c.set_fg_color_simple(7);
    c.double_height();
    c.normal_size();
    c.code_9e();
    c.parallel_mode();
    assert_eq!(
        c.bytes().as_slice(),
        &[
            0x9b, 0x31, 0x40, 0x1b, 0x23, 0x20, 0x54, 0x1b, 0x23, 0x21, 0x54, 0x87, 0x8d, 0x8c,
            0x9e, 0x1b, 0x22, 0x41,
        ]
    );
}

#[test]
fn repeat_emits_the_byte_count_times() {
    let mut c = Cept::new();
    c.repeat(0x51, 3);
    assert_eq!(c.bytes().as_slice(), &[0x51, 0x51, 0x51]);
}

#[test]
fn add_raw_bypasses_encoding() {
    let mut c = Cept::new();
    c.add_raw(&[0x1b, 0x28, 0x40, 0x0f]);
    assert_eq!(c.bytes().as_slice(), &[0x1b, 0x28, 0x40, 0x0f]);
}

#[test]
fn cursor_outside_the_grid_is_a_loud_error() {
    let mut c = Cept::new();
    assert_eq!(c.try_set_cursor(25, 1), Err(cept_pages::PageError::InvalidCursorPosition));
    assert_eq!(c.try_set_cursor(1, 41), Err(cept_pages::PageError::InvalidCursorPosition));
    assert_eq!(c.try_set_cursor(0, 0), Err(cept_pages::PageError::InvalidCursorPosition));
    assert!(c.bytes().is_empty());
    assert_eq!(c.try_set_cursor(24, 40), Ok(()));
    assert_eq!(c.bytes().as_slice(), &[0x1f, 0x58, 0x68]);
}
