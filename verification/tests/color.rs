use rustos::vga_buffer::{Color, ColorCode};

const ALL: [Color; 16] = [
    Color::Black,
    Color::Blue,
    Color::Green,
    Color::Cyan,
    Color::Red,
    Color::Magenta,
    Color::Brown,
    Color::LighGray,
    Color::DarkGray,
    Color::LightBlue,
    Color::LightGreen,
    Color::LightCyan,
    Color::LightRed,
    Color::Pink,
    Color::Yellow,
    Color::White,
];

#[test]
fn codes_follow_the_palette_order() {
    for (index, color) in ALL.iter().enumerate() {
        assert_eq!(color.code() as usize, index);
    }
}

#[test]
fn named_codes() {
    assert_eq!(Color::Black.code(), 0x0);
    assert_eq!(Color::Green.code(), 0x2);
    assert_eq!(Color::LighGray.code(), 0x7);
    assert_eq!(Color::DarkGray.code(), 0x8);
    assert_eq!(Color::Pink.code(), 0xd);
    assert_eq!(Color::White.code(), 0xf);
}

#[test]
fn nibbles_hold_foreground_and_background() {
    for front in ALL.iter() {
        for background in ALL.iter() {
            let code: ColorCode = ColorCode::new(*front, *background);
            assert_eq!(code.0 & 0x0f, front.code());
            assert_eq!(code.0 >> 4, background.code());
        }
    }
}

#[test]
fn exact_attribute_bytes() {
    assert_eq!(ColorCode::new(Color::Black, Color::Black), ColorCode(0x00));
    assert_eq!(ColorCode::new(Color::Green, Color::Black), ColorCode(0x02));
    assert_eq!(ColorCode::new(Color::White, Color::Black), ColorCode(0x0f));
    assert_eq!(ColorCode::new(Color::Yellow, Color::Blue), ColorCode(0x1e));
    assert_eq!(ColorCode::new(Color::Black, Color::White), ColorCode(0xf0));
    assert_eq!(ColorCode::new(Color::White, Color::White), ColorCode(0xff));
}

#[test]
fn foreground_and_background_are_not_interchanged() {
    assert_ne!(
        ColorCode::new(Color::Red, Color::Blue),
        ColorCode::new(Color::Blue, Color::Red)
    );
    assert_eq!(ColorCode::new(Color::Red, Color::Blue).0, 0x14);
    assert_eq!(ColorCode::new(Color::Blue, Color::Red).0, 0x41);
}
