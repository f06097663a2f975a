use kernel_core::vga_buffer::{Color, ScreenChar, VgaColor, Writer};

fn cell(writer: &Writer, row: usize, column: usize) -> ScreenChar {
    writer.buffer.read(row, column)
}

fn row_text(writer: &Writer, row: usize) -> String {
    (0..80).map(|column| cell(writer, row, column).ascii_character as char).collect::<String>()
}

#[test]
fn attribute_byte() {
    assert_eq!(VgaColor::new(Color::Yellow, Color::Black), VgaColor(0x0E));
    assert_eq!(VgaColor::new(Color::White, Color::Blue), VgaColor(0x1F));
    assert_eq!(VgaColor::new(Color::Black, Color::White), VgaColor(0xF0));
    assert_eq!(Color::LightGray.to_u8(), 7);
}

#[test]
fn bytes_go_to_the_bottom_row() {
    let color = VgaColor::new(Color::Yellow, Color::Black);
    let mut writer = Writer::new(color);
    writer.write_byte(b'H');
    writer.write_byte(b'i');
    assert_eq!(writer.column_position, 2);
    assert_eq!(cell(&writer, 24, 0), ScreenChar { ascii_character: b'H', color_code: color });
    assert_eq!(cell(&writer, 24, 1), ScreenChar { ascii_character: b'i', color_code: color });
    assert_eq!(cell(&writer, 24, 2), ScreenChar { ascii_character: b' ', color_code: color });
    assert_eq!(row_text(&writer, 23), " ".repeat(80));
}

#[test]
fn new_line_moves_the_rows_up() {
    let mut writer = Writer::new(VgaColor::new(Color::White, Color::Black));
    writer.write_string("first\nsecond\n");
    assert_eq!(writer.column_position, 0);
    assert_eq!(row_text(&writer, 22).trim_end(), "first");
    assert_eq!(row_text(&writer, 23).trim_end(), "second");
    assert_eq!(row_text(&writer, 24), " ".repeat(80));
    writer.write_string("third");
    assert_eq!(row_text(&writer, 24).trim_end(), "third");
    assert_eq!(writer.column_position, 5);
}

#[test]
fn a_full_row_wraps() {
    let mut writer = Writer::new(VgaColor::new(Color::White, Color::Black));
    writer.write_string(&"x".repeat(80));
    assert_eq!(writer.column_position, 80);
    assert_eq!(row_text(&writer, 24), "x".repeat(80));
    writer.write_byte(b'y');
    assert_eq!(writer.column_position, 1);
    assert_eq!(row_text(&writer, 23), "x".repeat(80));
    assert_eq!(row_text(&writer, 24).trim_end(), "y");
}

#[test]
fn what_cannot_be_printed_becomes_a_square() {
    let mut writer = Writer::new(VgaColor::new(Color::White, Color::Black));
    writer.write_string("a\tb\u{e9}~");
    let written: Vec<u8> = (0..6).map(|column| cell(&writer, 24, column).ascii_character).collect();
    // the tab is one byte, the accented letter two
    assert_eq!(written, vec![b'a', 0xfe, b'b', 0xfe, 0xfe, b'~']);
}

#[test]
fn the_top_row_scrolls_off() {
    let mut writer = Writer::new(VgaColor::new(Color::White, Color::Black));
    for line in 0..30 {
        writer.write_string(&format!("line {}\n", line));
    }
    assert_eq!(row_text(&writer, 0).trim_end(), "line 6");
    assert_eq!(row_text(&writer, 23).trim_end(), "line 29");
}
