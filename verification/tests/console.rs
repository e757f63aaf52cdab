use gem::vga_buffer::{Color, ColorCode, Writer, BUFFER_HEIGHT, BUFFER_WIDTH};

fn fresh_writer() -> Writer {
    Writer::new(Color::LightCyan, Color::Black)
}

#[test]
fn color_palette_indices() {
    assert_eq!(Color::Black.as_u8(), 0);
    assert_eq!(Color::Blue.as_u8(), 1);
    assert_eq!(Color::LightCyan.as_u8(), 11);
    assert_eq!(Color::White.as_u8(), 15);
}

#[test]
fn color_code_packs_foreground_and_background() {
    assert_eq!(ColorCode::new(Color::LightCyan, Color::Black).as_u8(), 0x0b);
    assert_eq!(ColorCode::new(Color::Yellow, Color::Blue).as_u8(), 0x1e);
    assert_eq!(ColorCode::new(Color::Black, Color::White).as_u8(), 0xf0);
}

#[test]
fn fresh_writer_is_blank() {
    let w = fresh_writer();
    assert_eq!(w.column_position(), 0);
    assert_eq!(w.color_code().as_u8(), 0x0b);
    for row in 0..BUFFER_HEIGHT {
        for col in 0..BUFFER_WIDTH {
            let cell = w.char_at(row, col);
            assert_eq!(cell.ascii_character, b' ');
            assert_eq!(cell.color_code.as_u8(), 0x0b);
        }
    }
}

#[test]
fn cursor_advances_with_printable_writes() {
    let mut w = fresh_writer();
    w.write_string("abc");
    assert_eq!(w.column_position(), 3);
    let bottom = BUFFER_HEIGHT - 1;
    assert_eq!(w.char_at(bottom, 0).ascii_character, b'a');
    assert_eq!(w.char_at(bottom, 1).ascii_character, b'b');
    assert_eq!(w.char_at(bottom, 2).ascii_character, b'c');
    assert_eq!(w.char_at(bottom, 0).color_code.as_u8(), 0x0b);
    assert_eq!(w.char_at(bottom, 3).ascii_character, b' ');
}

#[test]
fn unprintable_byte_draws_placeholder() {
    let mut w = fresh_writer();
    w.write_bytes(&[b'a', 0x05, b'b']);
    let bottom = BUFFER_HEIGHT - 1;
    assert_eq!(w.column_position(), 3);
    assert_eq!(w.char_at(bottom, 0).ascii_character, b'a');
    assert_eq!(w.char_at(bottom, 1).ascii_character, 0xfe);
    assert_eq!(w.char_at(bottom, 2).ascii_character, b'b');
    assert_eq!(w.char_at(bottom, 3).ascii_character, b' ');
}

#[test]
fn non_ascii_string_bytes_become_placeholders() {
    let mut w = fresh_writer();
    // A two-byte UTF-8 character: both bytes are outside printable ASCII.
    w.write_string("é");
    let bottom = BUFFER_HEIGHT - 1;
    assert_eq!(w.column_position(), 2);
    assert_eq!(w.char_at(bottom, 0).ascii_character, 0xfe);
    assert_eq!(w.char_at(bottom, 1).ascii_character, 0xfe);
}

#[test]
fn write_byte_is_verbatim() {
    let mut w = fresh_writer();
    w.write_byte(0x01);
    assert_eq!(w.char_at(BUFFER_HEIGHT - 1, 0).ascii_character, 0x01);
    assert_eq!(w.column_position(), 1);
}

#[test]
fn full_row_then_one_more_write_scrolls() {
    let mut w = fresh_writer();
    for _ in 0..BUFFER_WIDTH {
        w.write_byte(b'a');
    }
    assert_eq!(w.column_position(), BUFFER_WIDTH);
    w.write_byte(b'X');
    assert_eq!(w.column_position(), 1);
    let bottom = BUFFER_HEIGHT - 1;
    // The former bottom row moved up one row unchanged.
    for col in 0..BUFFER_WIDTH {
        assert_eq!(w.char_at(bottom - 1, col).ascii_character, b'a');
    }
    // The new bottom row contains only the one new character.
    assert_eq!(w.char_at(bottom, 0).ascii_character, b'X');
    for col in 1..BUFFER_WIDTH {
        assert_eq!(w.char_at(bottom, col).ascii_character, b' ');
    }
}

#[test]
fn newline_resets_column_and_scrolls() {
    let mut w = fresh_writer();
    w.write_string("abc");
    assert_eq!(w.column_position(), 3);
    w.write_byte(b'\n');
    assert_eq!(w.column_position(), 0);
    let bottom = BUFFER_HEIGHT - 1;
    assert_eq!(w.char_at(bottom - 1, 0).ascii_character, b'a');
    assert_eq!(w.char_at(bottom - 1, 1).ascii_character, b'b');
    assert_eq!(w.char_at(bottom - 1, 2).ascii_character, b'c');
    for col in 0..BUFFER_WIDTH {
        assert_eq!(w.char_at(bottom, col).ascii_character, b' ');
    }
    // A newline at column 0 still scrolls exactly once.
    w.write_byte(b'\n');
    assert_eq!(w.column_position(), 0);
    assert_eq!(w.char_at(bottom - 2, 0).ascii_character, b'a');
    assert_eq!(w.char_at(bottom - 1, 0).ascii_character, b' ');
}

#[test]
fn welcome_scenario() {
    let mut w = fresh_writer();
    let text = "Welcome to Gem.";
    w.write_string(text);
    assert_eq!(w.column_position(), 15);
    let bottom = BUFFER_HEIGHT - 1;
    for (i, b) in text.bytes().enumerate() {
        let cell = w.char_at(bottom, i);
        assert_eq!(cell.ascii_character, b);
        assert_eq!(cell.color_code.as_u8(), 0x0b);
    }
    for col in 15..BUFFER_WIDTH {
        assert_eq!(w.char_at(bottom, col).ascii_character, b' ');
    }
    for row in 0..bottom {
        for col in 0..BUFFER_WIDTH {
            assert_eq!(w.char_at(row, col).ascii_character, b' ');
        }
    }
}
