use vga_text::vga_buffer::{
    Color, ColorCode, Writer, BUFFER_HEIGHT, BUFFER_WIDTH, PLACEHOLDER, SPACE,
};

#[test]
fn round_trip_hello() {
    let mut w = Writer::new();
    w.write_string("Hello");
    let attr = w.color_code();
    let expected = [b'H', b'e', b'l', b'l', b'o'];
    for (col, &ch) in expected.iter().enumerate() {
        let cell = w.read_cell(BUFFER_HEIGHT - 1, col);
        assert_eq!(cell.ascii_character, ch);
        assert_eq!(cell.color_code, attr);
    }
    assert_eq!(w.column(), 5);
}

#[test]
fn printable_text_reads_back_in_row_major_order() {
    let mut w = Writer::new();
    let text = "The quick brown fox jumps over the lazy dog";
    w.write_string(text);
    for (col, ch) in text.bytes().enumerate() {
        let cell = w.read_cell(BUFFER_HEIGHT - 1, col);
        assert_eq!(cell.ascii_character, ch);
    }
    assert_eq!(w.column(), text.len());
}

#[test]
fn wrap_at_column_width() {
    let mut w = Writer::new();
    for _ in 0..BUFFER_WIDTH {
        w.write_byte(b'a');
    }
    assert_eq!(w.column(), BUFFER_WIDTH);
    w.write_byte(b'X');
    assert_eq!(w.column(), 1);
    let cell = w.read_cell(BUFFER_HEIGHT - 1, 0);
    assert_eq!(cell.ascii_character, b'X');
    let moved_up = w.read_cell(BUFFER_HEIGHT - 2, 0);
    assert_eq!(moved_up.ascii_character, b'a');
}

#[test]
fn newline_resets_column_and_scrolls() {
    let mut w = Writer::new();
    w.write_string("AB");
    assert_eq!(w.column(), 2);
    w.write_byte(b'\n');
    assert_eq!(w.column(), 0);
    assert_eq!(w.read_cell(BUFFER_HEIGHT - 2, 0).ascii_character, b'A');
    assert_eq!(w.read_cell(BUFFER_HEIGHT - 2, 1).ascii_character, b'B');
}

#[test]
fn scrolled_off_row_is_discarded() {
    let mut w = Writer::new();
    w.write_byte(b'A');
    for _ in 0..BUFFER_HEIGHT {
        w.write_byte(b'\n');
    }
    let attr = w.color_code();
    for row in 0..BUFFER_HEIGHT {
        for col in 0..BUFFER_WIDTH {
            let cell = w.read_cell(row, col);
            assert_eq!(cell.ascii_character, SPACE);
            assert_eq!(cell.color_code, attr);
        }
    }
}

#[test]
fn line_advance_blanks_bottom_row() {
    let mut w = Writer::new();
    for _ in 0..BUFFER_WIDTH {
        w.write_byte(b'z');
    }
    w.write_byte(b'\n');
    let attr = w.color_code();
    for col in 0..BUFFER_WIDTH {
        let cell = w.read_cell(BUFFER_HEIGHT - 1, col);
        assert_eq!(cell.ascii_character, SPACE);
        assert_eq!(cell.color_code, attr);
    }
}

#[test]
fn control_byte_becomes_placeholder() {
    let mut w = Writer::new();
    w.write_string("\u{1}");
    let cell = w.read_cell(BUFFER_HEIGHT - 1, 0);
    assert_eq!(cell.ascii_character, PLACEHOLDER);
    assert_ne!(cell.ascii_character, 0x01);
}

#[test]
fn multibyte_text_becomes_placeholders() {
    let mut w = Writer::new();
    // One two-byte character: both of its bytes are outside printable ASCII.
    w.write_string("é");
    assert_eq!(w.read_cell(BUFFER_HEIGHT - 1, 0).ascii_character, PLACEHOLDER);
    assert_eq!(w.read_cell(BUFFER_HEIGHT - 1, 1).ascii_character, PLACEHOLDER);
    assert_eq!(w.column(), 2);
}

#[test]
fn empty_string_is_a_no_op() {
    let mut w = Writer::new();
    w.write_string("xy");
    w.write_string("");
    assert_eq!(w.column(), 2);
    assert_eq!(w.read_cell(BUFFER_HEIGHT - 1, 0).ascii_character, b'x');
    assert_eq!(w.read_cell(BUFFER_HEIGHT - 1, 1).ascii_character, b'y');
}

#[test]
fn full_screen_fills_every_row() {
    let mut w = Writer::new();
    for _ in 0..BUFFER_HEIGHT * BUFFER_WIDTH {
        w.write_byte(b'a');
    }
    assert_eq!(w.column(), BUFFER_WIDTH);
    for row in 0..BUFFER_HEIGHT {
        for col in 0..BUFFER_WIDTH {
            assert_eq!(w.read_cell(row, col).ascii_character, b'a');
        }
    }
}

#[test]
fn fresh_writer_is_blank() {
    let w = Writer::new();
    assert_eq!(w.column(), 0);
    let attr = w.color_code();
    assert_eq!(attr.as_byte(), 0x0e);
    for row in 0..BUFFER_HEIGHT {
        for col in 0..BUFFER_WIDTH {
            let cell = w.read_cell(row, col);
            assert_eq!(cell.ascii_character, SPACE);
            assert_eq!(cell.color_code, attr);
        }
    }
}

#[test]
fn color_code_packs_nibbles() {
    assert_eq!(ColorCode::new(Color::Yellow, Color::Black).as_byte(), 0x0e);
    assert_eq!(ColorCode::new(Color::White, Color::Blue).as_byte(), 0x1f);
    assert_eq!(ColorCode::new(Color::Black, Color::White).as_byte(), 0xf0);
    assert_eq!(ColorCode::new(Color::LightCyan, Color::Red).as_byte(), 0x4b);
}
