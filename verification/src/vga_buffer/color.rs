use vstd::prelude::*;

verus! {

/// The sixteen colors of the text-mode palette, in the order of their codes.
#[derive(Clone, Copy, Debug, PartialEq, Eq, Structural)]
pub enum Color {
    Black,
    Blue,
    Green,
    Cyan,
    Red,
    Magenta,
    Brown,
    LighGray,
    DarkGray,
    LightBlue,
    LightGreen,
    LightCyan,
    LightRed,
    Pink,
    Yellow,
    White,
}

impl Color {
    /// The code that the hardware knows the color by.
    pub open spec fn spec_code(self) -> u8 {
        match self {
            Color::Black => 0x0,
            Color::Blue => 0x1,
            Color::Green => 0x2,
            Color::Cyan => 0x3,
            Color::Red => 0x4,
            Color::Magenta => 0x5,
            Color::Brown => 0x6,
            Color::LighGray => 0x7,
            Color::DarkGray => 0x8,
            Color::LightBlue => 0x9,
            Color::LightGreen => 0xa,
            Color::LightCyan => 0xb,
            Color::LightRed => 0xc,
            Color::Pink => 0xd,
            Color::Yellow => 0xe,
            Color::White => 0xf,
        }
    }

    /// The code that the hardware knows the color by: it fits in four bits.
    #[verifier::when_used_as_spec(spec_code)]
    pub fn code(self) -> (code: u8)
        ensures
            code == self.spec_code(),
            code <= 0xf,
    {
        match self {
            Color::Black => 0x0,
            Color::Blue => 0x1,
            Color::Green => 0x2,
            Color::Cyan => 0x3,
            Color::Red => 0x4,
            Color::Magenta => 0x5,
            Color::Brown => 0x6,
            Color::LighGray => 0x7,
            Color::DarkGray => 0x8,
            Color::LightBlue => 0x9,
            Color::LightGreen => 0xa,
            Color::LightCyan => 0xb,
            Color::LightRed => 0xc,
            Color::Pink => 0xd,
            Color::Yellow => 0xe,
            Color::White => 0xf,
        }
    }
}

/// The attribute byte of a cell: the background color in the high four bits,
/// the foreground color in the low four.
#[derive(Clone, Copy, Debug, PartialEq, Eq, Structural)]
pub struct ColorCode(pub u8);

impl ColorCode {
    /// The attribute byte for `front` on `background`.
    pub open spec fn spec_new(front: Color, background: Color) -> ColorCode {
        ColorCode((background.spec_code() << 4) | front.spec_code())
    }

    /// The low four bits: the code of the foreground color.
    pub open spec fn foreground_bits(self) -> u8 {
        self.0 & 0x0f
    }

    /// The high four bits: the code of the background color.
    pub open spec fn background_bits(self) -> u8 {
        self.0 >> 4
    }

    /// The low four bits of the attribute byte for `front` on `background`
    /// are the code of `front`, and its high four bits the code of
    /// `background`.
    pub proof fn lemma_nibbles(front: Color, background: Color)
        ensures
            Self::spec_new(front, background).foreground_bits() == front.spec_code(),
            Self::spec_new(front, background).background_bits() == background.spec_code(),
    {
        let f: u8 = front.spec_code();
        let b: u8 = background.spec_code();
        assert(((b << 4) | f) & 0x0f == f && ((b << 4) | f) >> 4 == b) by (bit_vector)
            requires
                f <= 0xf,
                b <= 0xf,
        ;
    }

    /// Packs `front` on `background` into one attribute byte.
    ///
    /// The byte is `(background << 4) | front`; its low four bits give the
    /// foreground back and its high four bits the background.
    pub fn new(front: Color, background: Color) -> (code: ColorCode)
        ensures
            code == Self::spec_new(front, background),
            code.foreground_bits() == front.spec_code(),
            code.background_bits() == background.spec_code(),
    {
        proof {
            Self::lemma_nibbles(front, background);
        }
        ColorCode((background.code() << 4) | front.code())
    }
}

} // verus!
