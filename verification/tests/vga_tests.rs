use rustos::vga_buffer::Color;
use rustos::vga_buffer::ColorCode;
use rustos::vga_buffer::VGAWriter;

fn test_writer() -> VGAWriter {
    VGAWriter::new(ColorCode::new(Color::LightRed, Color::Black))
}

#[test]
fn color_code_packs_background_high() {
    assert_eq!(ColorCode::new(Color::LightRed, Color::Black).0, 0x0c);
    assert_eq!(ColorCode::new(Color::White, Color::Blue).0, 0x1f);
    assert_eq!(ColorCode::new(Color::Black, Color::White).0, 0xf0);
}

#[test]
fn new_writer_is_blank_at_top_left() {
    let w = test_writer();
    assert_eq!(w.row, 0);
    assert_eq!(w.col, 0);
    for row in 0..25 {
        for col in 0..80 {
            assert_eq!(w.cell_at(row, col).ascii_character, 0);
        }
    }
}

#[test]
fn write_byte_lands_at_cursor_and_advances() {
    let mut w = test_writer();
    w.write_byte(b'H');
    assert_eq!(w.cell_at(0, 0).ascii_character, b'H');
    assert_eq!(w.cell_at(0, 0).color_code, ColorCode::new(Color::LightRed, Color::Black));
    assert_eq!(w.col, 1);
    assert_eq!(w.row, 0);
}

#[test]
fn newline_moves_to_next_row() {
    let mut w = test_writer();
    w.write_byte(b'a');
    w.write_byte(b'\n');
    assert_eq!(w.row, 1);
    assert_eq!(w.col, 0);
    w.write_byte(b'b');
    assert_eq!(w.cell_at(1, 0).ascii_character, b'b');
}

#[test]
fn full_line_wraps_to_next_row() {
    let mut w = test_writer();
    for _ in 0..80 {
        w.write_byte(b'a');
    }
    assert_eq!(w.row, 0);
    assert_eq!(w.col, 80);
    w.write_byte(b'b');
    assert_eq!(w.row, 1);
    assert_eq!(w.col, 1);
    assert_eq!(w.cell_at(0, 79).ascii_character, b'a');
    assert_eq!(w.cell_at(1, 0).ascii_character, b'b');
}

#[test]
fn bottom_row_newline_scrolls_grid_up() {
    let mut w = test_writer();
    w.write_string("A\nB\n");
    assert_eq!(w.row, 2);
    for _ in 0..22 {
        w.write_byte(b'\n');
    }
    assert_eq!(w.row, 24);
    assert_eq!(w.cell_at(0, 0).ascii_character, b'A');
    w.write_byte(b'\n');
    // Every row moved up one; the bottom row is blank.
    assert_eq!(w.row, 24);
    assert_eq!(w.col, 0);
    assert_eq!(w.cell_at(0, 0).ascii_character, b'B');
    assert_eq!(w.cell_at(1, 0).ascii_character, 0);
    for col in 0..80 {
        assert_eq!(w.cell_at(24, col).ascii_character, 0);
    }
}

#[test]
fn unprintable_bytes_show_fallback_glyph() {
    let mut w = test_writer();
    w.write_string("a\u{1}b");
    assert_eq!(w.cell_at(0, 0).ascii_character, b'a');
    assert_eq!(w.cell_at(0, 1).ascii_character, 0xfe);
    assert_eq!(w.cell_at(0, 2).ascii_character, b'b');
}

#[test]
fn write_string_hello() {
    let mut w = test_writer();
    w.write_string("Hello World!\nHello Again!\n");
    assert_eq!(w.row, 2);
    assert_eq!(w.col, 0);
    let first: Vec<u8> = (0..12).map(|c| w.cell_at(0, c).ascii_character).collect();
    assert_eq!(first, b"Hello World!".to_vec());
    let second: Vec<u8> = (0..12).map(|c| w.cell_at(1, c).ascii_character).collect();
    assert_eq!(second, b"Hello Again!".to_vec());
}

#[test]
fn clear_row_blanks_one_row_only() {
    let mut w = test_writer();
    w.write_string("top\nmid\n");
    w.clear_row(1);
    assert_eq!(w.cell_at(0, 0).ascii_character, b't');
    for col in 0..80 {
        assert_eq!(w.cell_at(1, col).ascii_character, 0);
    }
}

#[test]
fn clear_blanks_everything() {
    let mut w = test_writer();
    w.write_string("some text\nmore text\n");
    w.clear();
    for row in 0..25 {
        for col in 0..80 {
            assert_eq!(w.cell_at(row, col).ascii_character, 0);
        }
    }
}
