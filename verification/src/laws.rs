//! Protocol laws: properties of the byte-transition function that hold of
//! every device state, proved once and for all.

use vstd::prelude::*;
use crate::graphics::spec_decode_b;
use crate::model::{ModelState, inc_sat, spec_advance, spec_commit, spec_write};
use crate::pin::PinState;
use crate::spec_merge;

verus! {

/// While chip-select is high, no byte changes anything: neither decoder nor
/// framebuffer state, whatever the data-select level and whatever the byte.
pub proof fn lemma_deselected_write_is_noop(s: ModelState, data: u8)
    requires
        s.csx == PinState::High,
    ensures
        spec_write(s, data) == s,
{
}

/// Display off then display on leaves the display enabled; display off alone
/// leaves it disabled.
pub proof fn lemma_dispoff_dispon(s: ModelState)
    requires
        s.csx == PinState::Low,
        s.dcx == PinState::Low,
    ensures
        spec_write(spec_write(s, 0x28), 0x29).graphics.display == true,
        spec_write(s, 0x28).graphics.display == false,
{
}

/// Inversion-on is idempotent: a second INVON right after a first leaves the
/// very same state, with inversion on.
pub proof fn lemma_invon_idempotent(s: ModelState)
    requires
        s.csx == PinState::Low,
        s.dcx == PinState::Low,
    ensures
        spec_write(spec_write(s, 0x21), 0x21) == spec_write(s, 0x21),
        spec_write(s, 0x21).graphics.inverse == true,
{
    assert(spec_write(spec_write(s, 0x21), 0x21) =~~= spec_write(s, 0x21));
}

/// With no byte pending, a memory-write data byte is only buffered as the
/// coming pixel word's high byte: framebuffer, cursor and window are
/// untouched until the low byte arrives.
pub proof fn lemma_ramwr_buffers_high_byte(s: ModelState, msb: u8)
    requires
        s.csx == PinState::Low,
        s.dcx == PinState::High,
        s.command == 0x2c,
        s.buf == Seq::<u8>::empty(),
    ensures
        spec_write(s, msb) == (ModelState { buf: seq![msb], ..s }),
{
    assert(spec_write(s, msb) =~~= ModelState { buf: seq![msb], ..s });
}

/// With a pixel-word high byte pending, the low byte commits one decoded
/// pixel at the cursor and advances it: one step right, wrapping to the
/// window's left edge (and one row down) when `x` reaches the window's end
/// value, and back to the window's top edge when `y` does.
pub proof fn lemma_ramwr_commits_and_advances(s: ModelState, msb: u8, lsb: u8)
    requires
        s.wf(),
        s.csx == PinState::Low,
        s.dcx == PinState::High,
        s.command == 0x2c,
        s.buf == seq![msb],
        s.cursor_x < s.graphics.width,
        s.cursor_y < s.graphics.height,
    ensures
        spec_write(s, lsb).graphics.gram == s.graphics.gram.update(
            (s.cursor_y * s.graphics.width + s.cursor_x) as int,
            spec_decode_b(spec_merge(msb, lsb)),
        ),
        spec_write(s, lsb).buf == Seq::<u8>::empty(),
        s.cursor_x + 1 != s.xw_end ==> spec_write(s, lsb).cursor_x == s.cursor_x + 1
            && spec_write(s, lsb).cursor_y == s.cursor_y,
        s.cursor_x + 1 == s.xw_end && s.cursor_y + 1 != s.yw_end ==> spec_write(
            s,
            lsb,
        ).cursor_x == s.xw_start && spec_write(s, lsb).cursor_y == s.cursor_y + 1,
        s.cursor_x + 1 == s.xw_end && s.cursor_y + 1 == s.yw_end ==> spec_write(
            s,
            lsb,
        ).cursor_x == s.xw_start && spec_write(s, lsb).cursor_y == s.yw_start,
{
    crate::graphics::lemma_width_height_bounded(s.graphics);
    let pending = ModelState { buf: s.buf.drop_last(), ..s };
    assert(pending.buf =~= Seq::<u8>::empty());
    let committed = spec_commit(pending, spec_merge(msb, lsb));
    assert(spec_write(s, lsb) == spec_advance(committed));
    assert(inc_sat(s.cursor_x) == s.cursor_x + 1);
    assert(inc_sat(s.cursor_y) == s.cursor_y + 1);
}

/// A byte never changes the grid's dimensions, nor the signal lines: the
/// dimensions are fixed at construction for the device's lifetime, and the
/// lines are driven only from the command-issuing side.
pub proof fn lemma_write_keeps_dimensions_and_lines(s: ModelState, data: u8)
    ensures
        spec_write(s, data).graphics.width == s.graphics.width,
        spec_write(s, data).graphics.height == s.graphics.height,
        spec_write(s, data).csx == s.csx,
        spec_write(s, data).dcx == s.dcx,
{
    if s.csx != PinState::High && s.dcx == PinState::High && s.command == 0x2c
        && s.buf.len() > 0 {
        let pending = ModelState { buf: s.buf.drop_last(), ..s };
        let committed = spec_commit(pending, spec_merge(s.buf.last(), data));
        assert(spec_write(s, data) == spec_advance(committed));
    }
}

/// The high byte of a pixel word, sent first on the wire.
pub open spec fn word_msb(w: u16) -> u8 {
    (w >> 8) as u8
}

/// The low byte of a pixel word, sent second on the wire.
pub open spec fn word_lsb(w: u16) -> u8 {
    (w & 0xff) as u8
}

/// Splitting a word into its two wire bytes and merging them again gives the
/// word back.
pub proof fn lemma_word_split(w: u16)
    ensures
        spec_merge(word_msb(w), word_lsb(w)) == w,
{
    assert(((((w >> 8) as u8) as u16) << 8) | (((w & 0xff) as u8) as u16) == w)
        by (bit_vector);
}

/// Stream a sequence of pixel words into the device: for each word its high
/// byte, then its low byte.
pub open spec fn run_words(s: ModelState, words: Seq<u16>) -> ModelState
    decreases words.len(),
{
    if words.len() == 0 {
        s
    } else {
        run_words(
            spec_write(spec_write(s, word_msb(words[0])), word_lsb(words[0])),
            words.drop_first(),
        )
    }
}

/// The device is mid-burst in a memory write that addresses the whole grid:
/// selected, in data mode, command RAMWR latched, no byte pending, and both
/// window end values equal to the grid dimensions (one past the last column
/// and row, so that the wrap at `end` lands exactly past the grid edge).
pub open spec fn streaming_full_grid(s: ModelState) -> bool {
    &&& s.wf()
    &&& s.csx == PinState::Low
    &&& s.dcx == PinState::High
    &&& s.command == 0x2c
    &&& s.buf == Seq::<u8>::empty()
    &&& s.xw_start == 0
    &&& s.xw_end == s.graphics.width
    &&& s.yw_start == 0
    &&& s.yw_end == s.graphics.height
}

/// The cursor as a linear row-major index into the grid.
pub open spec fn lin_index(s: ModelState) -> int {
    (s.cursor_y * s.graphics.width + s.cursor_x) as int
}

/// One pixel word, sent as its two bytes during a full-grid memory write,
/// lands at the cursor's cell and moves the cursor to the next row-major
/// cell; after the last cell the cursor returns to the origin.
pub proof fn lemma_word_step(s: ModelState, w: u16)
    requires
        streaming_full_grid(s),
        s.cursor_x < s.graphics.width,
        s.cursor_y < s.graphics.height,
    ensures
        ({
            let t = spec_write(spec_write(s, word_msb(w)), word_lsb(w));
            &&& t.graphics.gram == s.graphics.gram.update(lin_index(s), spec_decode_b(w))
            &&& t.graphics.width == s.graphics.width
            &&& t.graphics.height == s.graphics.height
            &&& t.graphics.display == s.graphics.display
            &&& t.graphics.inverse == s.graphics.inverse
            &&& streaming_full_grid(t)
            &&& t.command == s.command
            &&& t.mirror_x == s.mirror_x && t.mirror_y == s.mirror_y
            &&& t.xy_switch == s.xy_switch && t.scan_order_switch == s.scan_order_switch
            &&& lin_index(s) + 1 < s.graphics.width * s.graphics.height ==> {
                &&& lin_index(t) == lin_index(s) + 1
                &&& t.cursor_x < t.graphics.width
                &&& t.cursor_y < t.graphics.height
            }
            &&& lin_index(s) + 1 == s.graphics.width * s.graphics.height ==> {
                &&& t.cursor_x == 0
                &&& t.cursor_y == 0
            }
        }),
{
    let width = s.graphics.width;
    let height = s.graphics.height;
    crate::graphics::lemma_width_height_bounded(s.graphics);
    crate::graphics::lemma_grid_index_in_range(width, height, s.cursor_x, s.cursor_y);
    lemma_word_split(w);
    let s1 = spec_write(s, word_msb(w));
    assert(s1 == ModelState { buf: seq![word_msb(w)], ..s });
    let pending = ModelState { buf: s1.buf.drop_last(), ..s1 };
    assert(pending.buf =~= Seq::<u8>::empty());
    let committed = spec_commit(pending, spec_merge(word_msb(w), word_lsb(w)));
    let t = spec_write(s1, word_lsb(w));
    assert(t == spec_advance(committed));
    assert(inc_sat(s.cursor_x) == s.cursor_x + 1);
    if s.cursor_x + 1 == width {
        assert(inc_sat(s.cursor_y) == s.cursor_y + 1);
        if s.cursor_y + 1 == height {
            assert(s.cursor_y * width + s.cursor_x + 1 == width * height)
                by (nonlinear_arith)
                requires
                    s.cursor_x + 1 == width,
                    s.cursor_y + 1 == height,
            ;
        } else {
            assert((s.cursor_y + 1) * width == s.cursor_y * width + s.cursor_x + 1)
                by (nonlinear_arith)
                requires
                    s.cursor_x + 1 == width,
            ;
            crate::graphics::lemma_grid_index_in_range(
                width,
                height,
                0,
                (s.cursor_y + 1) as nat,
            );
        }
    } else {
        crate::graphics::lemma_grid_index_in_range(
            width,
            height,
            (s.cursor_x + 1) as nat,
            s.cursor_y,
        );
    }
}

/// Streaming pixel words during a full-grid memory write fills consecutive
/// row-major cells, one word per cell, touches no other cell, and leaves the
/// cursor at the next unwritten cell; filling up to the last cell wraps the
/// cursor back to the origin.
pub proof fn lemma_fill_row_major(s: ModelState, words: Seq<u16>)
    requires
        streaming_full_grid(s),
        s.cursor_x < s.graphics.width,
        s.cursor_y < s.graphics.height,
        lin_index(s) + words.len() <= s.graphics.width * s.graphics.height,
    ensures
        ({
            let t = run_words(s, words);
            &&& t.graphics.width == s.graphics.width
            &&& t.graphics.height == s.graphics.height
            &&& t.graphics.display == s.graphics.display
            &&& t.graphics.inverse == s.graphics.inverse
            &&& streaming_full_grid(t)
            &&& t.command == s.command
            &&& t.mirror_x == s.mirror_x && t.mirror_y == s.mirror_y
            &&& t.xy_switch == s.xy_switch && t.scan_order_switch == s.scan_order_switch
            &&& forall|j: int|
                0 <= j < words.len() ==> t.graphics.gram[lin_index(s) + j]
                    == spec_decode_b(words[j])
            &&& forall|k: int|
                0 <= k < s.graphics.gram.len() && !(lin_index(s) <= k < lin_index(s)
                    + words.len()) ==> t.graphics.gram[k] == s.graphics.gram[k]
            &&& lin_index(s) + words.len() < s.graphics.width * s.graphics.height ==> {
                &&& lin_index(t) == lin_index(s) + words.len()
                &&& t.cursor_x < t.graphics.width
                &&& t.cursor_y < t.graphics.height
            }
            &&& words.len() > 0 && lin_index(s) + words.len() == s.graphics.width
                * s.graphics.height ==> t.cursor_x == 0 && t.cursor_y == 0
        }),
    decreases words.len(),
{
    crate::graphics::lemma_grid_index_in_range(
        s.graphics.width,
        s.graphics.height,
        s.cursor_x,
        s.cursor_y,
    );
    if words.len() > 0 {
        let w = words[0];
        let s2 = spec_write(spec_write(s, word_msb(w)), word_lsb(w));
        lemma_word_step(s, w);
        assert(run_words(s, words) == run_words(s2, words.drop_first()));
        let rest = words.drop_first();
        let t = run_words(s2, rest);
        assert(s2.graphics.gram.len() == s.graphics.gram.len());
        if lin_index(s) + 1 == s.graphics.width * s.graphics.height {
            // The word just written filled the last cell: nothing remains.
            assert(words.len() == 1);
            assert(t == s2);
            assert(t.graphics.gram[lin_index(s)] == spec_decode_b(words[0]));
            assert(forall|k: int|
                0 <= k < s.graphics.gram.len() && k != lin_index(s)
                    ==> t.graphics.gram[k] == s.graphics.gram[k]);
        } else {
            lemma_fill_row_major(s2, rest);
            assert forall|j: int|
                0 <= j < words.len() implies t.graphics.gram[lin_index(s) + j]
                == spec_decode_b(words[j]) by {
                if j == 0 {
                    assert(t.graphics.gram[lin_index(s)] == s2.graphics.gram[
                        lin_index(s)
                    ]);
                    assert(s2.graphics.gram[lin_index(s)] == spec_decode_b(words[0]));
                } else {
                    assert(t.graphics.gram[lin_index(s2) + (j - 1)] == spec_decode_b(
                        rest[j - 1],
                    ));
                    assert(rest[j - 1] == words[j]);
                }
            }
            assert forall|k: int|
                0 <= k < s.graphics.gram.len() && !(lin_index(s) <= k < lin_index(s)
                    + words.len()) implies t.graphics.gram[k] == s.graphics.gram[k] by {
                assert(t.graphics.gram[k] == s2.graphics.gram[k]);
                assert(s2.graphics.gram[k] == s.graphics.gram[k]);
            }
        }
    }
}

/// Round trip over the whole grid: beginning a memory write whose window
/// spans the grid (end values one past the last column and row) and then
/// streaming exactly `width * height` pixel words visits every framebuffer
/// cell exactly once in row-major order — cell `j` receives the `j`-th word
/// — and wraps the cursor back to the window origin.
pub proof fn lemma_full_grid_round_trip(s: ModelState, words: Seq<u16>)
    requires
        streaming_full_grid(s),
        s.cursor_x == 0,
        s.cursor_y == 0,
        words.len() == s.graphics.width * s.graphics.height,
    ensures
        ({
            let t = run_words(s, words);
            &&& forall|j: int|
                0 <= j < words.len() ==> t.graphics.gram[j] == spec_decode_b(words[j])
            &&& t.cursor_x == 0
            &&& t.cursor_y == 0
            &&& t.graphics.display == s.graphics.display
            &&& t.graphics.inverse == s.graphics.inverse
        }),
{
    assert(lin_index(s) == 0);
    assert(1 <= s.graphics.width * s.graphics.height) by (nonlinear_arith)
        requires
            1 <= s.graphics.width,
            1 <= s.graphics.height,
    ;
    lemma_fill_row_major(s, words);
    let t = run_words(s, words);
    assert forall|j: int|
        0 <= j < words.len() implies t.graphics.gram[j] == spec_decode_b(words[j]) by {
        assert(t.graphics.gram[lin_index(s) + j] == spec_decode_b(words[j]));
    }
}

} // verus!
