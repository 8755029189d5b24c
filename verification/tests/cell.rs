use rustos::vga_buffer::cell::SPACE;
use rustos::vga_buffer::{Color, ColorCode, ScreenCharactor};

#[test]
fn character_is_the_low_byte_and_attribute_the_high_byte() {
    let cell = ScreenCharactor { charactor: 0x41, color_code: ColorCode(0x1e) };
    assert_eq!(cell.to_word(), 0x1e41);
    assert_eq!(cell.to_word().to_le_bytes(), [0x41, 0x1e]);
}

#[test]
fn word_unpacks_into_character_and_attribute() {
    let cell = ScreenCharactor::from_word(0x0f48);
    assert_eq!(cell.charactor, 0x48);
    assert_eq!(cell.color_code, ColorCode::new(Color::White, Color::Black));
}

#[test]
fn every_word_round_trips() {
    let mut word: u16 = 0;
    loop {
        assert_eq!(ScreenCharactor::from_word(word).to_word(), word);
        if word == u16::MAX {
            break;
        }
        word += 1;
    }
}

#[test]
fn every_cell_round_trips() {
    for charactor in 0..=255u8 {
        for attribute in 0..=255u8 {
            let cell = ScreenCharactor { charactor, color_code: ColorCode(attribute) };
            assert_eq!(ScreenCharactor::from_word(cell.to_word()), cell);
        }
    }
}

#[test]
fn blank_is_a_space_black_on_black() {
    let blank = ScreenCharactor::blank();
    assert_eq!(blank.charactor, b' ');
    assert_eq!(blank.charactor, SPACE);
    assert_eq!(blank.color_code, ColorCode(0x00));
    assert_eq!(blank.to_word(), 0x0020);
}
