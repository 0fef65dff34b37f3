use voluspa_kernel::vga::{Color, ColorCode, VgaChar, Writer, is_valid_ascii};

#[test]
fn color_code_packs_nibbles() {
    assert_eq!(ColorCode::new(Color::White, Color::Black).0, 0x0f);
    assert_eq!(ColorCode::new(Color::White, Color::Blue).0, 0x1f);
    assert_eq!(ColorCode::new(Color::Red, Color::Blue).0, 0x14);
    assert_eq!(ColorCode::new(Color::Black, Color::Black).0, 0x00);
    assert_eq!(ColorCode::new(Color::Yellow, Color::LightGray).0, 0x7e);
}

#[test]
fn vga_char_keeps_fields() {
    let c = VgaChar::new(0x41, ColorCode::new(Color::Green, Color::Black));
    assert_eq!(c.ascii_code, 0x41);
    assert_eq!(c.color_code.0, 0x02);
}

#[test]
fn valid_ascii_boundaries() {
    assert!(!is_valid_ascii(&0x1f));
    assert!(is_valid_ascii(&0x20));
    assert!(is_valid_ascii(&0x7e));
    assert!(!is_valid_ascii(&0x7f));
    assert!(is_valid_ascii(&0x0a));
    assert!(!is_valid_ascii(&0x00));
}

#[test]
fn short_line_lands_on_bottom_row() {
    let mut w = Writer::init();
    w.write_string("hello");
    for (i, b) in b"hello".iter().enumerate() {
        assert_eq!(w.buffer[24 * 80 + i].ascii_code, *b);
    }
    assert_eq!(w.column_position, 5);
}

#[test]
fn newline_scrolls_line_up() {
    let mut w = Writer::init();
    let s = "Some test string that fits on a single line";
    w.write_string(s);
    w.write_char(0x0a);
    for (i, b) in s.bytes().enumerate() {
        assert_eq!(w.buffer[23 * 80 + i].ascii_code, b);
    }
    assert_eq!(w.column_position, 0);
    // The bottom row is blank again.
    for col in 0..80 {
        assert_eq!(w.buffer[24 * 80 + col].ascii_code, 0x20);
    }
}

#[test]
fn too_long_line_wraps() {
    let mut w = Writer::init();
    let s = "Some test string thats definitly too long for a single line and wont fit on a single line";
    assert!(s.len() > 80);
    w.write_string(s);
    let bytes = s.as_bytes();
    // The first 80 bytes scrolled up one row; the tail starts the bottom row.
    for i in 0..80 {
        assert_eq!(w.buffer[23 * 80 + i].ascii_code, bytes[i]);
    }
    for i in 80..s.len() {
        assert_eq!(w.buffer[24 * 80 + (i - 80)].ascii_code, bytes[i]);
    }
    assert_eq!(w.column_position, s.len() - 80);
}

#[test]
fn unprintable_byte_renders_square() {
    let mut w = Writer::init();
    w.write_string("a\u{00e9}");
    assert_eq!(w.buffer[24 * 80].ascii_code, 0x61);
    // The two-byte encoding of the accented letter renders as two squares.
    assert_eq!(w.buffer[24 * 80 + 1].ascii_code, 0xfe);
    assert_eq!(w.buffer[24 * 80 + 2].ascii_code, 0xfe);
}

#[test]
fn fill_and_write_row() {
    let mut w = Writer::init();
    let cell = VgaChar::new(0x2e, ColorCode::new(Color::White, Color::Black));
    w.fill_screen(cell);
    assert_eq!(w.buffer[0].ascii_code, 0x2e);
    assert_eq!(w.buffer[1999].ascii_code, 0x2e);
    w.fill_row(3, VgaChar::new(0x23, ColorCode::new(Color::White, Color::Black)));
    assert_eq!(w.buffer[3 * 80].ascii_code, 0x23);
    assert_eq!(w.buffer[3 * 80 + 79].ascii_code, 0x23);
    assert_eq!(w.buffer[4 * 80].ascii_code, 0x2e);
    w.write_row(5, "row five");
    assert_eq!(w.buffer[5 * 80].ascii_code, 0x72);
    assert_eq!(w.buffer[5 * 80 + 7].ascii_code, 0x65);
    assert_eq!(w.buffer[5 * 80 + 8].ascii_code, 0x2e);
}

#[test]
fn write_row_truncates_to_width() {
    let mut w = Writer::init();
    let long = "x".repeat(100);
    w.write_row(0, &long);
    for col in 0..80 {
        assert_eq!(w.buffer[col].ascii_code, 0x78);
    }
    // Nothing spilled into the next row.
    assert_eq!(w.buffer[80].ascii_code, 0x20);
}

#[test]
fn many_scrolled_lines_keep_writer_sound() {
    let mut w = Writer::init();
    for _ in 0..200 {
        w.write_string("Overflow time\n");
    }
    assert_eq!(w.column_position, 0);
    // The most recent completed line sits just above the blank bottom row.
    for (i, b) in b"Overflow time".iter().enumerate() {
        assert_eq!(w.buffer[23 * 80 + i].ascii_code, *b);
    }
    for col in 0..80 {
        assert_eq!(w.buffer[24 * 80 + col].ascii_code, 0x20);
    }
}

#[test]
fn panic_screen_layout() {
    let mut w = Writer::init();
    let banner = "                                     PANIC";
    w.paint_panic_screen(banner);
    assert_eq!(w.color_code.0, 0x1f);
    for (i, b) in banner.bytes().enumerate() {
        let cell = w.buffer[15 * 80 + i];
        assert_eq!(cell.ascii_code, b);
        assert_eq!(cell.color_code.0, 0x14);
    }
    // Everywhere else: white-on-blue blanks.
    assert_eq!(w.buffer[0].ascii_code, 0x20);
    assert_eq!(w.buffer[0].color_code.0, 0x1f);
    assert_eq!(w.buffer[1999].color_code.0, 0x1f);
    assert_eq!(w.buffer[15 * 80 + 79].ascii_code, 0x20);
}
