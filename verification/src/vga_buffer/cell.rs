use vstd::prelude::*;
use crate::vga_buffer::color::{Color, ColorCode};

verus! {

/// The character that a cleared cell holds.
pub const SPACE: u8 = 0x20;

/// One cell of the display: a character and the colors it is shown in.
#[derive(Clone, Copy, Debug, PartialEq, Eq, Structural)]
pub struct ScreenCharactor {
    pub charactor: u8,
    pub color_code: ColorCode,
}

impl ScreenCharactor {
    /// The cell that a cleared row is filled with: a space, black on black.
    pub open spec fn spec_blank() -> ScreenCharactor {
        ScreenCharactor {
            charactor: SPACE,
            color_code: ColorCode::spec_new(Color::Black, Color::Black),
        }
    }

    /// The 16-bit word that the hardware holds for this cell. The character
    /// is the low byte and the attribute the high byte, so that on a
    /// little-endian machine the character comes first in memory.
    pub open spec fn spec_to_word(self) -> u16 {
        ((self.color_code.0 as u16) << 8) | (self.charactor as u16)
    }

    /// The cell that the hardware shows for `word`.
    pub open spec fn spec_from_word(word: u16) -> ScreenCharactor {
        ScreenCharactor { charactor: (word & 0xff) as u8, color_code: ColorCode((word >> 8) as u8) }
    }

    /// Unpacking a packed cell gives the cell back.
    pub proof fn lemma_from_word_of_to_word(self)
        ensures
            Self::spec_from_word(self.spec_to_word()) == self,
    {
        let c: u8 = self.charactor;
        let a: u8 = self.color_code.0;
        assert(((((a as u16) << 8) | (c as u16)) & 0xff) as u8 == c) by (bit_vector);
        assert(((((a as u16) << 8) | (c as u16)) >> 8) as u8 == a) by (bit_vector);
    }

    /// Packing an unpacked word gives the word back.
    pub proof fn lemma_to_word_of_from_word(word: u16)
        ensures
            Self::spec_from_word(word).spec_to_word() == word,
    {
        assert(((((word >> 8) as u8) as u16) << 8) | (((word & 0xff) as u8) as u16) == word)
            by (bit_vector);
    }

    /// The cell that a cleared row is filled with: a space, black on black.
    #[verifier::when_used_as_spec(spec_blank)]
    pub fn blank() -> (cell: ScreenCharactor)
        ensures
            cell == Self::spec_blank(),
    {
        ScreenCharactor { charactor: SPACE, color_code: ColorCode::new(Color::Black, Color::Black) }
    }

    /// Packs the cell into the word that the hardware holds for it.
    #[verifier::when_used_as_spec(spec_to_word)]
    pub fn to_word(self) -> (word: u16)
        ensures
            word == self.spec_to_word(),
            Self::spec_from_word(word) == self,
        no_unwind
    {
        proof {
            self.lemma_from_word_of_to_word();
        }
        ((self.color_code.0 as u16) << 8) | (self.charactor as u16)
    }

    /// Unpacks the word that the hardware holds for a cell.
    #[verifier::when_used_as_spec(spec_from_word)]
    pub fn from_word(word: u16) -> (cell: ScreenCharactor)
        ensures
            cell == Self::spec_from_word(word),
            cell.spec_to_word() == word,
    {
        proof {
            Self::lemma_to_word_of_from_word(word);
        }
        ScreenCharactor { charactor: (word & 0xff) as u8, color_code: ColorCode((word >> 8) as u8) }
    }
}

} // verus!
