//! Simulator for the command protocol of a small SPI colour LCD controller.
//!
//! The simulator receives raw SPI bytes, tagged as command or data by two
//! signal lines, and reconstructs controller state: the addressing window,
//! orientation flags, display/inversion flags, and pixel writes into a
//! framebuffer.

pub mod graphics;
pub mod model;
pub mod laws;
pub mod pin;

use vstd::prelude::*;

use crate::graphics::{GraphicData, Pixel, Point};
use crate::model::{ModelState, spec_command, spec_data, spec_write};
use crate::pin::PinState;

verus! {

/// Combine a most-significant and a least-significant byte into one 16-bit
/// word, as the wire protocol transmits multi-byte parameters.
pub open spec fn spec_merge(msb: u8, lsb: u8) -> u16 {
    ((msb as u16) << 8) | (lsb as u16)
}

/// Combine a most-significant and a least-significant byte into one 16-bit word.
pub fn merge(msb: u8, lsb: u8) -> (r: u16)
    ensures
        r == spec_merge(msb, lsb),
{
    ((msb as u16) << 8) | (lsb as u16)
}

/// The simulated device: framebuffer, signal lines, and the protocol
/// decoder's own state (latched command, parameter buffer, addressing
/// window, write cursor, orientation flags).
pub struct Simulator {
    graphics: GraphicData,
    dcx: PinState,
    csx: PinState,
    command: u8,
    data_buffer: Vec<u8>,
    cursor: Point,
    x_window: (usize, usize),
    y_window: (usize, usize),
    mirror_x: bool,
    mirror_y: bool,
    xy_switch: bool,
    scan_order_switch: bool,
}

impl View for Simulator {
    type V = ModelState;

    closed spec fn view(&self) -> ModelState {
        ModelState {
            graphics: self.graphics@,
            csx: self.csx,
            dcx: self.dcx,
            command: self.command,
            buf: self.data_buffer@,
            cursor_x: self.cursor.x as nat,
            cursor_y: self.cursor.y as nat,
            xw_start: self.x_window.0 as nat,
            xw_end: self.x_window.1 as nat,
            yw_start: self.y_window.0 as nat,
            yw_end: self.y_window.1 as nat,
            mirror_x: self.mirror_x,
            mirror_y: self.mirror_y,
            xy_switch: self.xy_switch,
            scan_order_switch: self.scan_order_switch,
        }
    }
}

impl Simulator {
    /// Build a device of the given dimensions, in its reset state: black
    /// framebuffer, display on, inversion off, both signal lines low, no
    /// command latched, the addressing window spanning the full grid and the
    /// cursor at the origin.
    pub fn new(width: usize, height: usize) -> (r: Self)
        requires
            1 <= width,
            1 <= height,
            width * height <= usize::MAX,
        ensures
            r@ == ModelState::init(width as nat, height as nat),
            r@.wf(),
    {
        let r = Simulator {
            graphics: GraphicData::new(width, height),
            dcx: PinState::Low,
            csx: PinState::Low,
            command: 0x00,
            data_buffer: Vec::new(),
            cursor: Point { x: 0, y: 0 },
            x_window: (0, width - 1),
            y_window: (0, height - 1),
            mirror_x: false,
            mirror_y: false,
            xy_switch: false,
            scan_order_switch: false,
        };
        proof {
            assert(r@ =~~= ModelState::init(width as nat, height as nat));
        }
        r
    }

    /// Latch a new command opcode: clear the parameter buffer and apply any
    /// opcode that takes no parameters.
    fn set_command(&mut self, command: u8)
        ensures
            final(self)@ == spec_command(old(self)@, command),
    {
        self.command = command;
        self.data_buffer.clear();
        match command {
            // INVOFF: display inversion off
            0x20 => self.graphics.set_inverse(false),
            // INVON: display inversion on
            0x21 => self.graphics.set_inverse(true),
            // DISPOFF: display off
            0x28 => self.graphics.set_display(false),
            // DISPON: display on
            0x29 => self.graphics.set_display(true),
            // RAMWR: memory write begins at the window origin
            0x2C => {
                self.cursor.x = self.x_window.0;
                self.cursor.y = self.y_window.0;
            },
            _ => (),
        }
        proof {
            assert(self@ =~~= spec_command(old(self)@, command));
        }
    }

    /// Consume one parameter byte for the currently latched command.
    #[verifier::rlimit(50)]
    fn add_data(&mut self, data: u8)
        requires
            old(self)@.wf(),
        ensures
            final(self)@ == spec_data(old(self)@, data),
            final(self)@.wf(),
    {
        match self.command {
            // CASET: column address set. Three bytes accumulate; the fourth
            // completes two big-endian 16-bit values: start, then end.
            0x2A => {
                if self.data_buffer.len() < 3 {
                    self.data_buffer.push(data);
                } else {
                    let end_msb = self.data_buffer.pop().unwrap();
                    let end = merge(end_msb, data);
                    let start_lsb = self.data_buffer.pop().unwrap();
                    let start_msb = self.data_buffer.pop().unwrap();
                    let start = merge(start_msb, start_lsb);
                    self.x_window = (start as usize, end as usize);
                    proof {
                        assert(self.data_buffer@ =~= old(self)@.buf.take(
                            old(self)@.buf.len() - 3,
                        ));
                        assert(self@ =~~= spec_data(old(self)@, data));
                    }
                }
            },
            // PASET: page address set, same reassembly for the y window.
            0x2B => {
                if self.data_buffer.len() < 3 {
                    self.data_buffer.push(data);
                } else {
                    let end_msb = self.data_buffer.pop().unwrap();
                    let end = merge(end_msb, data);
                    let start_lsb = self.data_buffer.pop().unwrap();
                    let start_msb = self.data_buffer.pop().unwrap();
                    let start = merge(start_msb, start_lsb);
                    self.y_window = (start as usize, end as usize);
                    proof {
                        assert(self.data_buffer@ =~= old(self)@.buf.take(
                            old(self)@.buf.len() - 3,
                        ));
                        assert(self@ =~~= spec_data(old(self)@, data));
                    }
                }
            },
            // RAMWR: two bytes (high then low) form one pixel word.
            0x2C => {
                let pending = self.data_buffer.pop();
                match pending {
                    None => self.data_buffer.push(data),
                    Some(msb) => {
                        let word = merge(msb, data);
                        if self.cursor.x < self.graphics.width() && self.cursor.y
                            < self.graphics.height() {
                            self.graphics.set(self.cursor, Pixel::from(word));
                        }
                        // Advance the cursor; the wrap at the window's end
                        // value (not end + 1) is the device's exact boundary.
                        if self.cursor.x < usize::MAX {
                            self.cursor.x = self.cursor.x + 1;
                        }
                        if self.cursor.x == self.x_window.1 {
                            self.cursor.x = self.x_window.0;
                            if self.cursor.y < usize::MAX {
                                self.cursor.y = self.cursor.y + 1;
                            }
                            if self.cursor.y == self.y_window.1 {
                                self.cursor.y = self.y_window.0;
                            }
                        }
                        proof {
                            assert(self@ =~~= spec_data(old(self)@, data));
                        }
                    },
                }
            },
            // MADCTL: four orientation flags from the high bits of one byte.
            0x36 => {
                self.mirror_y = data & 0x80 != 0;
                self.mirror_x = data & 0x40 != 0;
                self.xy_switch = data & 0x20 != 0;
                self.scan_order_switch = data & 0x10 != 0;
            },
            _ => (),
        }
        proof {
            assert(self@ =~~= spec_data(old(self)@, data));
        }
    }

    /// Accept one byte from the bus. While chip-select is high the device is
    /// not addressed and the byte is ignored; otherwise data-select decides
    /// whether the byte is a command opcode or parameter data. Always
    /// returns zero, the value shifted back out on the serial line.
    pub fn write(&mut self, data: u8) -> (r: u8)
        requires
            old(self)@.wf(),
        ensures
            final(self)@ == spec_write(old(self)@, data),
            final(self)@.wf(),
            r == 0,
    {
        if self.csx.is_high() {
            return 0;
        }
        match self.dcx {
            PinState::Low => self.set_command(data),
            PinState::High => self.add_data(data),
        }
        0
    }

    /// Drive the chip-select line high: the device stops listening.
    pub fn csx_high(&mut self)
        ensures
            final(self)@ == (ModelState { csx: PinState::High, ..old(self)@ }),
    {
        self.csx = PinState::High;
    }

    /// Drive the chip-select line low: the device listens to the bus.
    pub fn csx_low(&mut self)
        ensures
            final(self)@ == (ModelState { csx: PinState::Low, ..old(self)@ }),
    {
        self.csx = PinState::Low;
    }

    /// Drive the data-select line high: bytes are parameter data.
    pub fn dcx_high(&mut self)
        ensures
            final(self)@ == (ModelState { dcx: PinState::High, ..old(self)@ }),
    {
        self.dcx = PinState::High;
    }

    /// Drive the data-select line low: bytes are command opcodes.
    pub fn dcx_low(&mut self)
        ensures
            final(self)@ == (ModelState { dcx: PinState::Low, ..old(self)@ }),
    {
        self.dcx = PinState::Low;
    }

    /// The framebuffer, for a renderer's read-only snapshot.
    pub fn graphics(&self) -> (r: &GraphicData)
        ensures
            r@ == self@.graphics,
    {
        &self.graphics
    }

    /// The current write cursor.
    pub fn cursor(&self) -> (r: Point)
        ensures
            r.x == self@.cursor_x,
            r.y == self@.cursor_y,
    {
        self.cursor
    }

    /// The active column window `(start, end)`.
    pub fn x_window(&self) -> (r: (usize, usize))
        ensures
            r.0 == self@.xw_start,
            r.1 == self@.xw_end,
    {
        self.x_window
    }

    /// The active page window `(start, end)`.
    pub fn y_window(&self) -> (r: (usize, usize))
        ensures
            r.0 == self@.yw_start,
            r.1 == self@.yw_end,
    {
        self.y_window
    }

    /// The command opcode currently latched.
    pub fn command(&self) -> (r: u8)
        ensures
            r == self@.command,
    {
        self.command
    }

    /// The four orientation flags, as `(mirror_x, mirror_y, xy_switch,
    /// scan_order_switch)`.
    pub fn orientation(&self) -> (r: (bool, bool, bool, bool))
        ensures
            r.0 == self@.mirror_x,
            r.1 == self@.mirror_y,
            r.2 == self@.xy_switch,
            r.3 == self@.scan_order_switch,
    {
        (self.mirror_x, self.mirror_y, self.xy_switch, self.scan_order_switch)
    }
}

} // verus!

