//! Mathematical model of the decoder: its abstract state and the exact
//! transition that one incoming byte makes.

use vstd::prelude::*;
use crate::graphics::{GraphicModel, spec_decode_b};
use crate::pin::PinState;
use crate::spec_merge;

verus! {

/// Abstract state of the whole device: framebuffer, signal lines, latched
/// command, parameter buffer, addressing window, write cursor, and the
/// orientation flags.
#[verifier::ext_equal]
pub ghost struct ModelState {
    pub graphics: GraphicModel,
    /// Chip-select line: the device ignores the bus while this is high.
    pub csx: PinState,
    /// Data-select line: a byte is an opcode while this is low, parameter
    /// data while it is high.
    pub dcx: PinState,
    /// The command opcode currently latched.
    pub command: u8,
    /// Parameter bytes accumulated for the current command.
    pub buf: Seq<u8>,
    pub cursor_x: nat,
    pub cursor_y: nat,
    pub xw_start: nat,
    pub xw_end: nat,
    pub yw_start: nat,
    pub yw_end: nat,
    pub mirror_x: bool,
    pub mirror_y: bool,
    pub xy_switch: bool,
    pub scan_order_switch: bool,
}

impl ModelState {
    /// The device invariant: the framebuffer grid is well formed.
    pub open spec fn wf(self) -> bool {
        self.graphics.wf()
    }

    /// The device as constructed: black framebuffer, both lines low, no
    /// command latched, window spanning the full grid, cursor at the origin.
    pub open spec fn init(width: nat, height: nat) -> ModelState {
        ModelState {
            graphics: GraphicModel::init(width, height),
            csx: PinState::Low,
            dcx: PinState::Low,
            command: 0,
            buf: Seq::empty(),
            cursor_x: 0,
            cursor_y: 0,
            xw_start: 0,
            xw_end: (width - 1) as nat,
            yw_start: 0,
            yw_end: (height - 1) as nat,
            mirror_x: false,
            mirror_y: false,
            xy_switch: false,
            scan_order_switch: false,
        }
    }
}

/// Increment that stays within the machine word: at `usize::MAX` the value
/// holds still instead of wrapping.
pub open spec fn inc_sat(x: nat) -> nat {
    if x < usize::MAX as nat {
        (x + 1) as nat
    } else {
        x
    }
}

/// Advance the write cursor one cell: step right; when `x` reaches the
/// window's end value, return to the window's left edge and step down; when
/// `y` reaches the window's end value, return to the window's top edge.
/// The wrap happens at `end` itself, not `end + 1`: the end column and end
/// row are never reached by advancement. That boundary is part of the
/// protocol this device implements and is kept exactly.
pub open spec fn spec_advance(s: ModelState) -> ModelState {
    let x1 = inc_sat(s.cursor_x);
    if x1 == s.xw_end {
        let y1 = inc_sat(s.cursor_y);
        if y1 == s.yw_end {
            ModelState { cursor_x: s.xw_start, cursor_y: s.yw_start, ..s }
        } else {
            ModelState { cursor_x: s.xw_start, cursor_y: y1, ..s }
        }
    } else {
        ModelState { cursor_x: x1, ..s }
    }
}

/// Commit one decoded pixel at the cursor. A cursor outside the grid (the
/// addressing window may exceed the framebuffer) commits nothing: the byte
/// stream is absorbed rather than halted.
pub open spec fn spec_commit(s: ModelState, word: u16) -> ModelState {
    if s.cursor_x < s.graphics.width && s.cursor_y < s.graphics.height {
        ModelState {
            graphics: GraphicModel {
                gram: s.graphics.gram.update(
                    (s.cursor_y * s.graphics.width + s.cursor_x) as int,
                    spec_decode_b(word),
                ),
                ..s.graphics
            },
            ..s
        }
    } else {
        s
    }
}

/// Latch a command opcode: record it, clear the parameter buffer, and apply
/// any opcode that takes no parameters.
pub open spec fn spec_command(s: ModelState, data: u8) -> ModelState {
    let latched = ModelState { command: data, buf: Seq::<u8>::empty(), ..s };
    if data == 0x20 {
        // INVOFF: display inversion off
        ModelState { graphics: GraphicModel { inverse: false, ..s.graphics }, ..latched }
    } else if data == 0x21 {
        // INVON: display inversion on
        ModelState { graphics: GraphicModel { inverse: true, ..s.graphics }, ..latched }
    } else if data == 0x28 {
        // DISPOFF: display off
        ModelState { graphics: GraphicModel { display: false, ..s.graphics }, ..latched }
    } else if data == 0x29 {
        // DISPON: display on
        ModelState { graphics: GraphicModel { display: true, ..s.graphics }, ..latched }
    } else if data == 0x2c {
        // RAMWR: memory write begins; the cursor returns to the window origin
        ModelState { cursor_x: s.xw_start, cursor_y: s.yw_start, ..latched }
    } else {
        // Any other opcode is recorded but has no immediate effect.
        latched
    }
}

/// Consume one parameter byte for the currently latched command.
pub open spec fn spec_data(s: ModelState, data: u8) -> ModelState {
    if s.command == 0x2a {
        // CASET: column address set
        if s.buf.len() < 3 {
            ModelState { buf: s.buf.push(data), ..s }
        } else {
            let end: u16 = spec_merge(s.buf[s.buf.len() - 1], data);
            let start: u16 = spec_merge(s.buf[s.buf.len() - 3], s.buf[s.buf.len() - 2]);
            ModelState {
                buf: s.buf.take(s.buf.len() - 3),
                xw_start: start as nat,
                xw_end: end as nat,
                ..s
            }
        }
    } else if s.command == 0x2b {
        // PASET: page address set
        if s.buf.len() < 3 {
            ModelState { buf: s.buf.push(data), ..s }
        } else {
            let end: u16 = spec_merge(s.buf[s.buf.len() - 1], data);
            let start: u16 = spec_merge(s.buf[s.buf.len() - 3], s.buf[s.buf.len() - 2]);
            ModelState {
                buf: s.buf.take(s.buf.len() - 3),
                yw_start: start as nat,
                yw_end: end as nat,
                ..s
            }
        }
    } else if s.command == 0x2c {
        // RAMWR: pixel data, two bytes (high then low) per pixel
        if s.buf.len() == 0 {
            ModelState { buf: seq![data], ..s }
        } else {
            let msb: u8 = s.buf.last();
            let pending = ModelState { buf: s.buf.drop_last(), ..s };
            spec_advance(spec_commit(pending, spec_merge(msb, data)))
        }
    } else if s.command == 0x36 {
        // MADCTL: four orientation flags from the high bits of one byte;
        // the low nibble (colour order) is ignored.
        ModelState {
            mirror_y: data & 0x80 != 0,
            mirror_x: data & 0x40 != 0,
            xy_switch: data & 0x20 != 0,
            scan_order_switch: data & 0x10 != 0,
            ..s
        }
    } else {
        // Parameter bytes for any other command are discarded.
        s
    }
}

/// The transition one incoming byte makes. While chip-select is high the
/// device is not addressed and nothing changes; otherwise data-select
/// decides whether the byte is an opcode or parameter data.
pub open spec fn spec_write(s: ModelState, data: u8) -> ModelState {
    if s.csx == PinState::High {
        s
    } else if s.dcx == PinState::Low {
        spec_command(s, data)
    } else {
        spec_data(s, data)
    }
}

/// One byte never breaks the device invariant.
pub proof fn lemma_write_preserves_wf(s: ModelState, data: u8)
    requires
        s.wf(),
    ensures
        spec_write(s, data).wf(),
{
    if s.csx != PinState::High && s.dcx == PinState::High && s.command == 0x2c
        && s.buf.len() > 0 {
        let msb = s.buf.last();
        let pending = ModelState { buf: s.buf.drop_last(), ..s };
        let committed = spec_commit(pending, spec_merge(msb, data));
        if pending.cursor_x < pending.graphics.width
            && pending.cursor_y < pending.graphics.height {
            crate::graphics::lemma_grid_index_in_range(
                pending.graphics.width,
                pending.graphics.height,
                pending.cursor_x,
                pending.cursor_y,
            );
        }
        assert(committed.graphics.gram.len() == s.graphics.gram.len());
        assert(spec_write(s, data) == spec_advance(committed));
        assert(spec_advance(committed).graphics == committed.graphics);
    }
}

} // verus!
