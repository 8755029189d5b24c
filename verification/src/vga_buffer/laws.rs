use vstd::prelude::*;
use crate::vga_buffer::cell::{ScreenCharactor, SPACE};
use crate::vga_buffer::color::{Color, ColorCode};
use crate::vga_buffer::grid::{VGA_BUFFER_H, VGA_BUFFER_W};
use crate::vga_buffer::screen::{is_printable, is_writable, sanitize, Screen, NEWLINE, UNPRINTABLE};

verus! {

/// The cell that `byte` shows as when it is written in the colors of `s`.
pub open spec fn shown(s: Screen, byte: u8) -> ScreenCharactor {
    ScreenCharactor { charactor: byte, color_code: s.color_code }
}

/// Every byte of the string is printable ASCII.
pub open spec fn all_printable(bytes: Seq<u8>) -> bool {
    forall|i: int| 0 <= i < bytes.len() ==> is_printable(#[trigger] bytes[i])
}

/// A character that the display shows for a byte of a string: printable
/// ASCII, or the glyph for an unprintable byte.
pub open spec fn is_glyph(byte: u8) -> bool {
    is_printable(byte) || byte == UNPRINTABLE
}

/// Every cell of the rows holds a glyph.
pub open spec fn all_glyphs(rows: Seq<Seq<ScreenCharactor>>) -> bool {
    forall|r: int, c: int|
        0 <= r < VGA_BUFFER_H && 0 <= c < VGA_BUFFER_W ==> is_glyph(
            (#[trigger] rows[r][c]).charactor,
        )
}

/// A cleared cell holds a space, black on black: its attribute byte is zero.
pub proof fn law_blank_cell()
    ensures
        ScreenCharactor::spec_blank() == (ScreenCharactor {
            charactor: SPACE,
            color_code: ColorCode::spec_new(Color::Black, Color::Black),
        }),
        ScreenCharactor::spec_blank().color_code == ColorCode(0),
{
    assert(((0u8 << 4) | 0u8) == 0u8) by (bit_vector);
}

/// After a scroll every cell of the bottom row holds a space, black on
/// black, whatever the current colors are, and each row above it holds what
/// the row below it held before. The cursor is at the start of the bottom
/// row, and one more scroll has been counted.
pub proof fn law_scroll(s: Screen)
    requires
        s.wf(),
    ensures
        s.scroll().wf(),
        s.scroll().column == 0,
        s.scroll().color_code == s.color_code,
        s.scroll().scrolls == s.scrolls + 1,
        forall|c: int|
            0 <= c < VGA_BUFFER_W ==> #[trigger] s.scroll().bottom()[c] == (ScreenCharactor {
                charactor: SPACE,
                color_code: ColorCode::spec_new(Color::Black, Color::Black),
            }),
        forall|r: int| 0 <= r < VGA_BUFFER_H - 1 ==> #[trigger] s.scroll().rows[r] == s.rows[r + 1],
{
}

/// Writing a newline is exactly one scroll, wherever the cursor was: the
/// cursor returns to the start of the bottom row.
pub proof fn law_newline(s: Screen)
    ensures
        s.write_byte(NEWLINE) == s.scroll(),
        s.write_string(seq![NEWLINE]) == s.scroll(),
        s.write_byte(NEWLINE).column == 0,
        s.write_byte(NEWLINE).scrolls == s.scrolls + 1,
{
    law_write_one(s, NEWLINE);
}

/// Writing a string of one byte writes that byte, sanitized.
pub proof fn law_write_one(s: Screen, byte: u8)
    ensures
        s.write_string(seq![byte]) == s.write_byte(sanitize(byte)),
{
    let bytes = seq![byte];
    assert(bytes.drop_last() =~= Seq::<u8>::empty());
    assert(s.write_string(bytes.drop_last()) == s);
}

/// Writing two strings one after the other is writing their concatenation.
pub proof fn law_write_concat(s: Screen, first: Seq<u8>, second: Seq<u8>)
    ensures
        s.write_string(first + second) == s.write_string(first).write_string(second),
    decreases second.len(),
{
    if second.len() == 0 {
        assert(first + second =~= first);
    } else {
        law_write_concat(s, first, second.drop_last());
        assert((first + second).drop_last() =~= first + second.drop_last());
        assert((first + second).last() == second.last());
    }
}

/// A byte of a string that is neither printable ASCII nor a newline is
/// never written as it is: the glyph for an unprintable byte is written in
/// its place. A byte that is printable ASCII or a newline is written as it
/// is.
pub proof fn law_sanitize(s: Screen, byte: u8)
    ensures
        !is_writable(byte) ==> s.write_string(seq![byte]) == s.write_byte(UNPRINTABLE),
        is_writable(byte) ==> s.write_string(seq![byte]) == s.write_byte(byte),
        is_writable(sanitize(byte)) || sanitize(byte) == UNPRINTABLE,
{
    law_write_one(s, byte);
}

/// Writing a byte that is a glyph or a newline keeps a display of glyphs a
/// display of glyphs.
pub proof fn law_write_byte_keeps_glyphs(s: Screen, byte: u8)
    requires
        s.wf(),
        all_glyphs(s.rows),
        is_glyph(byte) || byte == NEWLINE,
    ensures
        all_glyphs(s.write_byte(byte).rows),
{
    law_scroll(s);
    let scrolled = s.scroll();
    assert(all_glyphs(scrolled.rows)) by {
        assert forall|r: int, c: int|
            0 <= r < VGA_BUFFER_H && 0 <= c < VGA_BUFFER_W implies is_glyph(
            (#[trigger] scrolled.rows[r][c]).charactor,
        ) by {
            if r < VGA_BUFFER_H - 1 {
                assert(scrolled.rows[r] == s.rows[r + 1]);
                assert(is_glyph(s.rows[r + 1][c].charactor));
            } else {
                assert(scrolled.bottom()[c].charactor == SPACE);
            }
        }
    }
    if byte != NEWLINE {
        let before = if s.column >= VGA_BUFFER_W {
            scrolled
        } else {
            s
        };
        assert(s.write_byte(byte) == before.place(byte));
        assert forall|r: int, c: int|
            0 <= r < VGA_BUFFER_H && 0 <= c < VGA_BUFFER_W implies is_glyph(
            (#[trigger] before.place(byte).rows[r][c]).charactor,
        ) by {
            assert(is_glyph(before.rows[r][c].charactor));
        }
    }
}

/// Writing a string keeps a display of glyphs a display of glyphs: no byte
/// of a string reaches a cell unless it is printable ASCII.
pub proof fn law_write_string_keeps_glyphs(s: Screen, bytes: Seq<u8>)
    requires
        s.wf(),
        all_glyphs(s.rows),
    ensures
        all_glyphs(s.write_string(bytes).rows),
    decreases bytes.len(),
{
    if bytes.len() > 0 {
        law_write_string_keeps_glyphs(s, bytes.drop_last());
        law_write_string_keeps_shape(s, bytes.drop_last());
        law_write_byte_keeps_glyphs(s.write_string(bytes.drop_last()), sanitize(bytes.last()));
    }
}

/// Writing a byte keeps the shape of the display and the cursor within the
/// bottom row or just behind it.
pub proof fn law_write_byte_keeps_shape(s: Screen, byte: u8)
    requires
        s.wf(),
    ensures
        s.write_byte(byte).wf(),
{
    law_scroll(s);
}

/// Writing a string keeps the shape of the display and the cursor within
/// the bottom row or just behind it.
pub proof fn law_write_string_keeps_shape(s: Screen, bytes: Seq<u8>)
    requires
        s.wf(),
    ensures
        s.write_string(bytes).wf(),
    decreases bytes.len(),
{
    if bytes.len() > 0 {
        law_write_string_keeps_shape(s, bytes.drop_last());
        law_write_byte_keeps_shape(s.write_string(bytes.drop_last()), sanitize(bytes.last()));
    }
}

/// The cursor returns to the start of the row only by a scroll: a byte
/// that is written takes one scroll or none, and where it takes none the
/// cursor moves on by one.
pub proof fn law_cursor_resets_only_by_scroll(s: Screen, byte: u8)
    ensures
        s.write_byte(byte).scrolls == s.scrolls || s.write_byte(byte).scrolls == s.scrolls + 1,
        s.write_byte(byte).scrolls == s.scrolls ==> s.write_byte(byte).column == s.column + 1,
        s.write_byte(byte).scrolls == s.scrolls + 1 ==> s.write_byte(byte).column <= 1,
{
}

/// Writing printable characters that fit into the rest of the bottom row
/// takes no scroll. The cursor moves on by their number; the characters
/// stand in the bottom row in their order, from where the cursor was, in
/// the current colors; every other cell is as it was.
pub proof fn law_write_within_row(s: Screen, bytes: Seq<u8>)
    requires
        s.wf(),
        s.column + bytes.len() <= VGA_BUFFER_W,
        all_printable(bytes),
    ensures
        s.write_string(bytes).wf(),
        s.write_string(bytes).column == s.column + bytes.len(),
        s.write_string(bytes).scrolls == s.scrolls,
        s.write_string(bytes).color_code == s.color_code,
        forall|c: int|
            s.column <= c < s.column + bytes.len() ==> #[trigger] s.write_string(bytes).bottom()[c]
                == shown(s, bytes[c - s.column]),
        forall|c: int|
            0 <= c < VGA_BUFFER_W && !(s.column <= c < s.column + bytes.len())
                ==> #[trigger] s.write_string(bytes).bottom()[c] == s.bottom()[c],
        forall|r: int|
            0 <= r < VGA_BUFFER_H - 1 ==> #[trigger] s.write_string(bytes).rows[r] == s.rows[r],
    decreases bytes.len(),
{
    if bytes.len() > 0 {
        let front = bytes.drop_last();
        law_write_within_row(s, front);
        let before = s.write_string(front);
        assert(is_printable(bytes.last()));
        assert(s.write_string(bytes) == before.place(bytes.last()));
        let after = s.write_string(bytes);
        assert forall|c: int| s.column <= c < s.column + bytes.len() implies #[trigger] after.bottom()[c]
            == shown(s, bytes[c - s.column]) by {
            if c < s.column + front.len() {
                assert(before.bottom()[c] == shown(s, front[c - s.column]));
            }
        }
        assert forall|c: int|
            0 <= c < VGA_BUFFER_W && !(s.column <= c < s.column + bytes.len())
            implies #[trigger] after.bottom()[c] == s.bottom()[c] by {
            assert(before.bottom()[c] == s.bottom()[c]);
        }
    }
}

/// Writing at most a row of printable characters from the start of the
/// bottom row leaves the cursor at their number. The first cells of the
/// bottom row hold the characters in their order; the cells behind them
/// are as they were, and so is every other row.
pub proof fn law_row_of_printables(s: Screen, bytes: Seq<u8>)
    requires
        s.wf(),
        s.column == 0,
        bytes.len() <= VGA_BUFFER_W,
        all_printable(bytes),
    ensures
        s.write_string(bytes).column == bytes.len(),
        s.write_string(bytes).scrolls == s.scrolls,
        forall|c: int|
            0 <= c < bytes.len() ==> #[trigger] s.write_string(bytes).bottom()[c] == shown(
                s,
                bytes[c],
            ),
        forall|c: int|
            bytes.len() <= c < VGA_BUFFER_W ==> #[trigger] s.write_string(bytes).bottom()[c]
                == s.bottom()[c],
        forall|r: int|
            0 <= r < VGA_BUFFER_H - 1 ==> #[trigger] s.write_string(bytes).rows[r] == s.rows[r],
{
    law_write_within_row(s, bytes);
}

/// Writing printable characters that overrun the bottom row by exactly one
/// takes exactly one scroll. The last character then stands at the start of
/// the new bottom row, the rest of which is cleared, and the cursor is
/// behind it. The row above is the bottom row as the characters before the
/// last had filled it; every row further up holds what the row below it
/// held before.
pub proof fn law_write_wraps(s: Screen, bytes: Seq<u8>)
    requires
        s.wf(),
        bytes.len() >= 1,
        s.column + bytes.len() == VGA_BUFFER_W + 1,
        all_printable(bytes),
    ensures
        s.write_string(bytes).wf(),
        s.write_string(bytes).scrolls == s.scrolls + 1,
        s.write_string(bytes).column == 1,
        s.write_string(bytes).color_code == s.color_code,
        s.write_string(bytes).bottom()[0] == shown(s, bytes.last()),
        forall|c: int|
            1 <= c < VGA_BUFFER_W ==> #[trigger] s.write_string(bytes).bottom()[c]
                == ScreenCharactor::spec_blank(),
        s.write_string(bytes).rows[VGA_BUFFER_H - 2] == s.write_string(bytes.drop_last()).bottom(),
        forall|r: int|
            0 <= r < VGA_BUFFER_H - 2 ==> #[trigger] s.write_string(bytes).rows[r] == s.rows[r + 1],
{
    let front = bytes.drop_last();
    law_write_within_row(s, front);
    let before = s.write_string(front);
    assert(is_printable(bytes.last()));
    law_scroll(before);
    assert(s.write_string(bytes) == before.scroll().place(bytes.last()));
    let after = s.write_string(bytes);
    assert forall|c: int| 1 <= c < VGA_BUFFER_W implies #[trigger] after.bottom()[c]
        == ScreenCharactor::spec_blank() by {
        assert(before.scroll().bottom()[c] == ScreenCharactor::spec_blank());
    }
    assert forall|r: int| 0 <= r < VGA_BUFFER_H - 2 implies #[trigger] after.rows[r]
        == s.rows[r + 1] by {
        assert(before.scroll().rows[r] == before.rows[r + 1]);
    }
    assert(before.scroll().rows[VGA_BUFFER_H - 2] == before.rows[VGA_BUFFER_H - 1]);
}

/// Writing one printable character more than a row holds, from the start
/// of the bottom row, takes exactly one scroll. The last character stands
/// at the start of the new bottom row, the rest of which is cleared; the
/// row above it holds the characters before it, in their order.
pub proof fn law_one_more_than_a_row(s: Screen, bytes: Seq<u8>)
    requires
        s.wf(),
        s.column == 0,
        bytes.len() == VGA_BUFFER_W + 1,
        all_printable(bytes),
    ensures
        s.write_string(bytes).scrolls == s.scrolls + 1,
        s.write_string(bytes).column == 1,
        s.write_string(bytes).bottom()[0] == shown(s, bytes[VGA_BUFFER_W as int]),
        forall|c: int|
            1 <= c < VGA_BUFFER_W ==> #[trigger] s.write_string(bytes).bottom()[c]
                == ScreenCharactor::spec_blank(),
        forall|c: int|
            0 <= c < VGA_BUFFER_W ==> #[trigger] s.write_string(bytes).rows[VGA_BUFFER_H - 2][c]
                == shown(s, bytes[c]),
        forall|r: int|
            0 <= r < VGA_BUFFER_H - 2 ==> #[trigger] s.write_string(bytes).rows[r] == s.rows[r + 1],
{
    law_write_wraps(s, bytes);
    let front = bytes.drop_last();
    law_row_of_printables(s, front);
    let after = s.write_string(bytes);
    assert forall|c: int| 0 <= c < VGA_BUFFER_W implies #[trigger] after.rows[VGA_BUFFER_H - 2][c]
        == shown(s, bytes[c]) by {
        assert(s.write_string(front).bottom()[c] == shown(s, front[c]));
    }
}

} // verus!
