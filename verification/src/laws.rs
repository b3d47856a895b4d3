//! General properties of the writer's rendering model: well-formedness is
//! preserved, printable text survives a round trip through the screen,
//! lines wrap at the right edge, and a line-advance scrolls and blanks.

use vstd::prelude::*;
use vstd::arithmetic::div_mod::{
    lemma_fundamental_div_mod, lemma_fundamental_div_mod_converse,
    lemma_mod_division_less_than_divisor,
};
use crate::vga_buffer::{
    blank_cell, glyph_for, ColorCode, ScreenChar, WriterView, BUFFER_HEIGHT, BUFFER_WIDTH,
    NEWLINE, SCREEN_CELLS, SPACE,
};

verus! {

/// True of the bytes that render as themselves without triggering the
/// placeholder or a line-advance: printable ASCII.
pub open spec fn printable(b: u8) -> bool {
    SPACE <= b && b <= 0x7e
}

/// The cell that placing byte `b` under attribute `attr` produces.
pub open spec fn glyph_cell(b: u8, attr: ColorCode) -> ScreenChar {
    ScreenChar { ascii_character: b, color_code: attr }
}

/// Rendering one byte keeps the writer state well formed.
pub proof fn lemma_after_byte_preserves_wf(v: WriterView, b: u8)
    requires
        v.wf(),
    ensures
        v.after_byte(b).wf(),
        v.after_byte(b).attr == v.attr,
{
}

/// Rendering any byte sequence keeps the writer state well formed.
pub proof fn lemma_after_bytes_preserves_wf(v: WriterView, bytes: Seq<u8>)
    requires
        v.wf(),
    ensures
        v.after_bytes(bytes).wf(),
        v.after_bytes(bytes).attr == v.attr,
    decreases bytes.len(),
{
    if bytes.len() > 0 {
        lemma_after_bytes_preserves_wf(v, bytes.drop_last());
        lemma_after_byte_preserves_wf(v.after_bytes(bytes.drop_last()), glyph_for(bytes.last()));
    }
}

/// Writing a newline resets the cursor to column zero and moves every row up
/// one position: each cell of rows `1..BUFFER_HEIGHT` reappears one row
/// higher, and the old top row is discarded.
pub proof fn lemma_newline_scrolls(v: WriterView)
    requires
        v.wf(),
    ensures
        v.after_byte(NEWLINE).column == 0,
        v.after_byte(NEWLINE).attr == v.attr,
        forall|j: int|
            0 <= j < (BUFFER_HEIGHT - 1) * BUFFER_WIDTH ==> #[trigger] v.after_byte(
                NEWLINE,
            ).screen[j] == v.screen[j + BUFFER_WIDTH],
{
}

/// After any line-advance the fresh bottom row is entirely blank: the space
/// character under the writer's current attribute, in every column.
pub proof fn lemma_line_advance_blanks_bottom(v: WriterView)
    requires
        v.wf(),
    ensures
        forall|j: int|
            (BUFFER_HEIGHT - 1) * BUFFER_WIDTH <= j < SCREEN_CELLS ==> #[trigger] v.advanced(
            ).screen[j] == blank_cell(v.attr),
{
}

/// Cells are written whole: when every cell carries the writer's attribute,
/// every cell still carries it after rendering any byte stream, so no cell
/// ever pairs a character from one write with an attribute from another.
pub proof fn lemma_cells_carry_writer_attribute(v: WriterView, bytes: Seq<u8>)
    requires
        v.wf(),
        forall|j: int| 0 <= j < SCREEN_CELLS ==> (#[trigger] v.screen[j]).color_code == v.attr,
    ensures
        v.after_bytes(bytes).attr == v.attr,
        forall|j: int|
            0 <= j < SCREEN_CELLS ==> (#[trigger] v.after_bytes(bytes).screen[j]).color_code
                == v.attr,
    decreases bytes.len(),
{
    if bytes.len() > 0 {
        lemma_cells_carry_writer_attribute(v, bytes.drop_last());
        lemma_after_bytes_preserves_wf(v, bytes.drop_last());
        let v1 = v.after_bytes(bytes.drop_last());
        let b = glyph_for(bytes.last());
        let out = v1.after_byte(b);
        assert forall|j: int| 0 <= j < SCREEN_CELLS implies (#[trigger] out.screen[j]).color_code
            == v.attr by {
            if j < (BUFFER_HEIGHT - 1) * BUFFER_WIDTH {
                assert(v1.advanced().screen[j] == v1.screen[j + BUFFER_WIDTH]);
            }
        }
    }
}

/// Printable text survives a round trip through the screen: rendering a
/// printable byte sequence from column zero leaves the cursor just past the
/// last glyph, and the whole sequence can be read back, byte for byte, from
/// the cells preceding the cursor in row-major order.
pub proof fn lemma_printable_round_trip(v: WriterView, s: Seq<u8>)
    requires
        v.wf(),
        v.column == 0,
        1 <= s.len() <= SCREEN_CELLS,
        forall|i: int| 0 <= i < s.len() ==> printable(#[trigger] s[i]),
    ensures
        v.after_bytes(s).attr == v.attr,
        v.after_bytes(s).column == (s.len() - 1) % (BUFFER_WIDTH as int) + 1,
        forall|i: int|
            0 <= i < s.len() ==> v.after_bytes(s).screen[BUFFER_WIDTH * (BUFFER_HEIGHT - 1)
                + v.after_bytes(s).column - s.len() + i] == glyph_cell(#[trigger] s[i], v.attr),
    decreases s.len(),
{
    let w = BUFFER_WIDTH as int;
    let k = s.len() as int;
    let out = v.after_bytes(s);
    let b = s.last();
    let s0 = s.drop_last();
    assert(!(b == NEWLINE));
    if k == 1 {
        assert(s0.len() == 0);
        assert(out == v.printed(b));
        assert((k - 1) % w == 0);
        assert(out.screen[BUFFER_WIDTH * (BUFFER_HEIGHT - 1)] == glyph_cell(s[0], v.attr));
    } else {
        lemma_printable_round_trip(v, s0);
        lemma_after_bytes_preserves_wf(v, s0);
        let v1 = v.after_bytes(s0);
        let col1 = v1.column as int;
        lemma_mod_division_less_than_divisor(k - 2, w);
        lemma_fundamental_div_mod(k - 2, w);
        let q = (k - 2) / w;
        let r = (k - 2) % w;
        assert(col1 == r + 1);
        assert(out == v1.printed(b));
        let base0 = BUFFER_WIDTH * (BUFFER_HEIGHT - 1) + col1 - (k - 1);
        assert(base0 == (BUFFER_HEIGHT - 1) * w - q * w);
        assert(q * w <= k - 2);
        if col1 < w {
            lemma_fundamental_div_mod_converse(k - 1, w, q, r + 1);
            assert(out.column == col1 + 1);
            let base = BUFFER_WIDTH * (BUFFER_HEIGHT - 1) + out.column - k;
            assert(base == base0);
            assert(base0 >= 0);
            assert forall|i: int| 0 <= i < k implies out.screen[base + i] == glyph_cell(
                s[i],
                v.attr,
            ) by {
                if i < k - 1 {
                    assert(v1.screen[base0 + i] == glyph_cell(s0[i], v.attr));
                    assert(base + i != BUFFER_WIDTH * (BUFFER_HEIGHT - 1) + col1);
                } else {
                    assert(base + i == BUFFER_WIDTH * (BUFFER_HEIGHT - 1) + col1);
                }
            }
        } else {
            assert(col1 == w && r == w - 1);
            lemma_fundamental_div_mod_converse(k - 1, w, q + 1, 0);
            assert((k - 1) % w == 0);
            let v2 = v1.advanced();
            assert(out.column == 1);
            let base = BUFFER_WIDTH * (BUFFER_HEIGHT - 1) + out.column - k;
            assert(base0 == base + w);
            assert(q * w + w - 1 <= SCREEN_CELLS - 2);
            assert(base0 >= w);
            assert forall|i: int| 0 <= i < k implies out.screen[base + i] == glyph_cell(
                s[i],
                v.attr,
            ) by {
                if i < k - 1 {
                    assert(v1.screen[base0 + i] == glyph_cell(s0[i], v.attr));
                    assert(v2.screen[base + i] == v1.screen[base + i + w]);
                    assert(base + i != BUFFER_WIDTH * (BUFFER_HEIGHT - 1));
                } else {
                    assert(base + i == BUFFER_WIDTH * (BUFFER_HEIGHT - 1));
                }
            }
        }
    }
}

/// Filling the bottom row exactly and then writing one more printable byte
/// wraps: the extra byte lands at column zero of the (still) bottom row and
/// the cursor stands at column one.
pub proof fn lemma_wrap_after_full_row(v: WriterView, s: Seq<u8>, b: u8)
    requires
        v.wf(),
        v.column == 0,
        s.len() == BUFFER_WIDTH,
        forall|i: int| 0 <= i < s.len() ==> printable(#[trigger] s[i]),
        printable(b),
    ensures
        v.after_bytes(s).column == BUFFER_WIDTH,
        v.after_bytes(s.push(b)).column == 1,
        v.after_bytes(s.push(b)).screen[(BUFFER_HEIGHT - 1) * BUFFER_WIDTH] == glyph_cell(
            b,
            v.attr,
        ),
{
    lemma_printable_round_trip(v, s);
    assert forall|i: int| 0 <= i < s.push(b).len() implies printable(#[trigger] s.push(b)[i]) by {
        if i < s.len() {
            assert(s.push(b)[i] == s[i]);
        }
    }
    lemma_printable_round_trip(v, s.push(b));
    assert(s.push(b)[BUFFER_WIDTH as int] == b);
}

} // verus!
