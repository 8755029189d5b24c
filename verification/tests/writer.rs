use core::fmt::Write;
use rustos::vga_buffer::screen::{NEWLINE, UNPRINTABLE};
use rustos::vga_buffer::{
    Color, ColorCode, ScreenCharactor, VgaBuffer, VgaWriter, VGA_BUFFER_H, VGA_BUFFER_W,
};
use volatile::Volatile;

const BOTTOM: usize = VGA_BUFFER_H - 1;

fn buffer_of(word: u16) -> &'static mut VgaBuffer {
    Box::leak(Box::new(core::array::from_fn(|_| core::array::from_fn(|_| Volatile::new(word)))))
}

/// A writer, green on black as the kernel's console is, over memory in
/// which every cell holds `word`.
fn writer_over(word: u16) -> VgaWriter {
    VgaWriter::new(Color::Green, Color::Black, buffer_of(word))
}

/// A writer over memory in which the cell at `row` and `col` holds the
/// character `b'A' + row` and the attribute `col`.
fn writer_over_pattern() -> VgaWriter {
    let buffer = buffer_of(0);
    for row in 0..VGA_BUFFER_H {
        for col in 0..VGA_BUFFER_W {
            buffer[row][col].write(pattern(row, col).to_word());
        }
    }
    VgaWriter::new(Color::Green, Color::Black, buffer)
}

fn pattern(row: usize, col: usize) -> ScreenCharactor {
    cell(b'A' + row as u8, col as u8)
}

fn snapshot(writer: &VgaWriter) -> Vec<Vec<ScreenCharactor>> {
    (0..VGA_BUFFER_H)
        .map(|row| (0..VGA_BUFFER_W).map(|col| writer.buffer().read(row, col)).collect())
        .collect()
}

fn characters(writer: &VgaWriter, row: usize, from: usize, to: usize) -> Vec<u8> {
    (from..to).map(|col| writer.buffer().read(row, col).charactor).collect()
}

fn cell(charactor: u8, attribute: u8) -> ScreenCharactor {
    ScreenCharactor { charactor, color_code: ColorCode(attribute) }
}

fn green(charactor: u8) -> ScreenCharactor {
    cell(charactor, 0x02)
}

fn printable(n: usize) -> String {
    (0..n).map(|i| (b'!' + (i % 90) as u8) as char).collect()
}

#[test]
fn new_writer_starts_at_column_zero() {
    let writer = writer_over(0x1234);
    assert_eq!(writer.column(), 0);
    assert_eq!(writer.color_code(), ColorCode(0x02));
}

#[test]
fn new_writer_leaves_the_display_as_it_was() {
    let writer = writer_over_pattern();
    for row in 0..VGA_BUFFER_H {
        for col in 0..VGA_BUFFER_W {
            assert_eq!(writer.buffer().read(row, col), pattern(row, col));
        }
    }
}

#[test]
fn write_byte_puts_the_byte_at_the_cursor() {
    let mut writer = writer_over_pattern();
    let before = snapshot(&writer);
    writer.write_byte(b'H');
    assert_eq!(writer.column(), 1);
    assert_eq!(writer.buffer().read(BOTTOM, 0), green(b'H'));
    let after = snapshot(&writer);
    for row in 0..VGA_BUFFER_H {
        for col in 0..VGA_BUFFER_W {
            if !(row == BOTTOM && col == 0) {
                assert_eq!(after[row][col], before[row][col]);
            }
        }
    }
}

#[test]
fn write_byte_does_not_sanitize() {
    let mut writer = writer_over(0);
    writer.write_byte(0x80);
    writer.write_byte(0x07);
    assert_eq!(characters(&writer, BOTTOM, 0, 2), vec![0x80, 0x07]);
    assert_eq!(writer.column(), 2);
}

#[test]
fn printable_characters_fill_the_bottom_row_in_order() {
    for n in [0usize, 1, 2, 40, 79, 80] {
        let mut writer = writer_over_pattern();
        let before = snapshot(&writer);
        let text = printable(n);
        writer.write_string(&text);
        assert_eq!(writer.column(), n);
        let after = snapshot(&writer);
        for (col, byte) in text.bytes().enumerate() {
            assert_eq!(after[BOTTOM][col], green(byte));
        }
        for col in n..VGA_BUFFER_W {
            assert_eq!(after[BOTTOM][col], before[BOTTOM][col]);
        }
        for row in 0..BOTTOM {
            assert_eq!(after[row], before[row]);
        }
    }
}

#[test]
fn a_full_row_does_not_scroll_until_the_next_character() {
    let mut writer = writer_over_pattern();
    let before = snapshot(&writer);
    writer.write_string(&printable(VGA_BUFFER_W));
    assert_eq!(writer.column(), VGA_BUFFER_W);
    assert_eq!(snapshot(&writer)[..BOTTOM], before[..BOTTOM]);
}

#[test]
fn one_character_more_than_a_row_scrolls_once() {
    let mut writer = writer_over_pattern();
    let before = snapshot(&writer);
    let text = printable(VGA_BUFFER_W + 1);
    writer.write_string(&text);
    let after = snapshot(&writer);
    assert_eq!(writer.column(), 1);
    assert_eq!(after[BOTTOM][0], green(text.as_bytes()[VGA_BUFFER_W]));
    for col in 1..VGA_BUFFER_W {
        assert_eq!(after[BOTTOM][col], ScreenCharactor::blank());
    }
    for col in 0..VGA_BUFFER_W {
        assert_eq!(after[BOTTOM - 1][col], green(text.as_bytes()[col]));
    }
    for row in 0..BOTTOM - 1 {
        assert_eq!(after[row], before[row + 1]);
    }
}

#[test]
fn wrap_happens_before_the_write_from_any_column() {
    let mut writer = writer_over_pattern();
    writer.write_string(&printable(77));
    let before = snapshot(&writer);
    writer.write_string("abcd");
    let after = snapshot(&writer);
    assert_eq!(writer.column(), 1);
    assert_eq!(after[BOTTOM][0], green(b'd'));
    assert_eq!(characters(&writer, BOTTOM - 1, 77, 80), b"abc".to_vec());
    assert_eq!(after[BOTTOM - 1][..77], before[BOTTOM][..77]);
    for row in 0..BOTTOM - 1 {
        assert_eq!(after[row], before[row + 1]);
    }
}

#[test]
fn newline_scrolls_once_from_any_column() {
    for n in [0usize, 1, 17, 79, 80] {
        let mut writer = writer_over_pattern();
        writer.write_string(&printable(n));
        let before = snapshot(&writer);
        writer.write_byte(NEWLINE);
        let after = snapshot(&writer);
        assert_eq!(writer.column(), 0);
        for row in 0..BOTTOM {
            assert_eq!(after[row], before[row + 1]);
        }
        for col in 0..VGA_BUFFER_W {
            assert_eq!(after[BOTTOM][col], ScreenCharactor::blank());
        }
    }
}

#[test]
fn newline_in_a_string_scrolls_as_the_byte_does() {
    let mut by_string = writer_over_pattern();
    let mut by_byte = writer_over_pattern();
    by_string.write_string("\n");
    by_byte.write_byte(b'\n');
    assert_eq!(snapshot(&by_string), snapshot(&by_byte));
    assert_eq!(by_string.column(), by_byte.column());
}

#[test]
fn new_line_moves_every_row_up_and_clears_the_bottom_row() {
    let mut writer = writer_over_pattern();
    writer.new_line();
    for row in 0..BOTTOM {
        for col in 0..VGA_BUFFER_W {
            assert_eq!(writer.buffer().read(row, col), pattern(row + 1, col));
        }
    }
    for col in 0..VGA_BUFFER_W {
        assert_eq!(writer.buffer().read(BOTTOM, col), cell(b' ', 0x00));
    }
    assert_eq!(writer.column(), 0);
}

#[test]
fn cleared_row_is_black_on_black_whatever_the_colors() {
    let mut writer = VgaWriter::new(Color::Yellow, Color::Blue, buffer_of(0xffff));
    writer.write_string("x\n");
    assert_eq!(writer.buffer().read(BOTTOM - 1, 0), cell(b'x', 0x1e));
    for col in 0..VGA_BUFFER_W {
        assert_eq!(writer.buffer().read(BOTTOM, col).to_word(), 0x0020);
    }
}

#[test]
fn twenty_five_scrolls_clear_the_display() {
    let mut writer = writer_over_pattern();
    for _ in 0..VGA_BUFFER_H {
        writer.new_line();
    }
    for row in snapshot(&writer) {
        for cell in row {
            assert_eq!(cell, ScreenCharactor::blank());
        }
    }
}

#[test]
fn unprintable_bytes_become_the_sentinel() {
    let mut writer = writer_over(0);
    writer.write_string("a\tb\u{7f}c\u{1f}\r\0");
    assert_eq!(
        characters(&writer, BOTTOM, 0, 8),
        vec![b'a', 0xfe, b'b', 0xfe, b'c', 0xfe, 0xfe, 0xfe]
    );
    assert_eq!(writer.column(), 8);
    assert_eq!(UNPRINTABLE, 0xfe);
}

#[test]
fn every_byte_of_a_character_outside_ascii_becomes_a_sentinel() {
    let mut writer = writer_over(0);
    writer.write_string("h\u{e9}llo \u{20ac} \u{1f600}!");
    let mut expected: Vec<u8> = vec![b'h', 0xfe, 0xfe, b'l', b'l', b'o', b' '];
    expected.extend([0xfe, 0xfe, 0xfe, b' ']);
    expected.extend([0xfe, 0xfe, 0xfe, 0xfe, b'!']);
    assert_eq!(characters(&writer, BOTTOM, 0, expected.len()), expected);
    assert_eq!(writer.column(), expected.len());
}

#[test]
fn the_ends_of_the_printable_range_pass() {
    let mut writer = writer_over(0);
    writer.write_string(" ~");
    assert_eq!(characters(&writer, BOTTOM, 0, 2), vec![0x20, 0x7e]);
}

#[test]
fn no_string_leaves_a_raw_unprintable_byte() {
    let mut writer = writer_over(0x0720);
    let text: String = (0u32..0x250).filter_map(char::from_u32).collect();
    writer.write_string(&text);
    for row in snapshot(&writer) {
        for cell in row {
            assert!((0x20..=0x7e).contains(&cell.charactor) || cell.charactor == 0xfe);
        }
    }
}

#[test]
fn empty_string_changes_nothing() {
    let mut writer = writer_over_pattern();
    writer.write_string("abc");
    let before = snapshot(&writer);
    writer.write_string("");
    assert_eq!(snapshot(&writer), before);
    assert_eq!(writer.column(), 3);
}

#[test]
fn two_writes_are_one_write_of_the_concatenation() {
    let mut in_two = writer_over_pattern();
    let mut in_one = writer_over_pattern();
    let first = printable(70);
    let second = "tail\nnext \u{e9} line";
    in_two.write_string(&first);
    in_two.write_string(second);
    in_one.write_string(&format!("{}{}", first, second));
    assert_eq!(snapshot(&in_two), snapshot(&in_one));
    assert_eq!(in_two.column(), in_one.column());
}

#[test]
fn change_color_shows_in_later_characters_only() {
    let mut writer = writer_over(0);
    writer.write_string("ab");
    let before = snapshot(&writer);
    writer.change_color(Color::White, Color::Red);
    assert_eq!(snapshot(&writer), before);
    assert_eq!(writer.column(), 2);
    assert_eq!(writer.color_code(), ColorCode(0x4f));
    writer.write_string("c");
    assert_eq!(writer.buffer().read(BOTTOM, 0), green(b'a'));
    assert_eq!(writer.buffer().read(BOTTOM, 1), green(b'b'));
    assert_eq!(writer.buffer().read(BOTTOM, 2), cell(b'c', 0x4f));
}

#[test]
fn hello_world_example() {
    let mut writer = writer_over(0x0720);
    writer.write_string("Hello world\nThis is good\n");
    writer.write_string("Test 3 + 2 = 5");
    assert_eq!(characters(&writer, BOTTOM - 2, 0, 11), b"Hello world".to_vec());
    assert_eq!(characters(&writer, BOTTOM - 1, 0, 12), b"This is good".to_vec());
    assert_eq!(characters(&writer, BOTTOM, 0, 14), b"Test 3 + 2 = 5".to_vec());
    assert_eq!(writer.column(), 14);
    for col in 14..VGA_BUFFER_W {
        assert_eq!(writer.buffer().read(BOTTOM, col), ScreenCharactor::blank());
    }
    for col in 12..VGA_BUFFER_W {
        assert_eq!(writer.buffer().read(BOTTOM - 1, col), ScreenCharactor::blank());
    }
    for col in 11..VGA_BUFFER_W {
        assert_eq!(writer.buffer().read(BOTTOM - 2, col), ScreenCharactor::from_word(0x0720));
    }
    for row in 0..BOTTOM - 2 {
        for col in 0..VGA_BUFFER_W {
            assert_eq!(writer.buffer().read(row, col), ScreenCharactor::from_word(0x0720));
        }
    }
}

#[test]
fn write_str_writes_as_write_string_does_and_succeeds() {
    let mut through_trait = writer_over_pattern();
    let mut direct = writer_over_pattern();
    let text = "Test println! to stdout\n\u{fc}";
    assert!(through_trait.write_str(text).is_ok());
    direct.write_string(text);
    assert_eq!(snapshot(&through_trait), snapshot(&direct));
    assert_eq!(through_trait.column(), direct.column());
}

#[test]
fn formatted_text_reaches_the_display() {
    let mut writer = writer_over(0);
    assert!(writer.write_str(&format!("Test {} + {} = {}", 3, 2, 5)).is_ok());
    assert!(writer.write_char('!').is_ok());
    assert_eq!(characters(&writer, BOTTOM, 0, 15), b"Test 3 + 2 = 5!".to_vec());
}
