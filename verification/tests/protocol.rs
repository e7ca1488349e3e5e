use lcd_sim::Simulator;
use lcd_sim::graphics::Pixel;

/// Send one command opcode: data-select low, then the byte.
fn cmd(sim: &mut Simulator, opcode: u8) {
    sim.dcx_low();
    sim.write(opcode);
}

/// Send one parameter byte: data-select high, then the byte.
fn data(sim: &mut Simulator, byte: u8) {
    sim.dcx_high();
    sim.write(byte);
}

/// Send one pixel word as its two RAMWR data bytes, high byte first.
fn word(sim: &mut Simulator, w: u16) {
    data(sim, (w >> 8) as u8);
    data(sim, (w & 0xFF) as u8);
}

/// Set the column window over the wire: CASET with two big-endian values.
fn caset(sim: &mut Simulator, start: u16, end: u16) {
    cmd(sim, 0x2A);
    data(sim, (start >> 8) as u8);
    data(sim, (start & 0xFF) as u8);
    data(sim, (end >> 8) as u8);
    data(sim, (end & 0xFF) as u8);
}

/// Set the page window over the wire: PASET with two big-endian values.
fn paset(sim: &mut Simulator, start: u16, end: u16) {
    cmd(sim, 0x2B);
    data(sim, (start >> 8) as u8);
    data(sim, (start & 0xFF) as u8);
    data(sim, (end >> 8) as u8);
    data(sim, (end & 0xFF) as u8);
}

const BLACK: Pixel = Pixel { r: 0, g: 0, b: 0 };
const WHITEISH: Pixel = Pixel { r: 248, g: 252, b: 248 };

#[test]
fn new_device_reset_state() {
    let sim = Simulator::new(8, 6);
    assert_eq!(sim.graphics().width(), 8);
    assert_eq!(sim.graphics().height(), 6);
    assert!(sim.graphics().display());
    assert!(!sim.graphics().inverse());
    assert_eq!(sim.x_window(), (0, 7));
    assert_eq!(sim.y_window(), (0, 5));
    assert_eq!(sim.cursor().x, 0);
    assert_eq!(sim.cursor().y, 0);
    assert_eq!(sim.command(), 0x00);
    assert_eq!(sim.orientation(), (false, false, false, false));
    for y in 0..6 {
        for x in 0..8 {
            assert_eq!(sim.graphics().pixel(x, y), BLACK);
        }
    }
}

#[test]
fn caset_paset_then_ramwr_sets_cursor() {
    let mut sim = Simulator::new(64, 32);
    caset(&mut sim, 10, 50);
    paset(&mut sim, 5, 20);
    assert_eq!(sim.x_window(), (10, 50));
    assert_eq!(sim.y_window(), (5, 20));
    cmd(&mut sim, 0x2C);
    assert_eq!(sim.cursor().x, 10);
    assert_eq!(sim.cursor().y, 5);
}

#[test]
fn ramwr_commits_pixel_and_advances() {
    let mut sim = Simulator::new(8, 6);
    cmd(&mut sim, 0x2C);
    // Two zero bytes form word 0x0000: a black pixel at the cursor.
    data(&mut sim, 0x00);
    assert_eq!(sim.cursor().x, 0, "first byte only buffers the high byte");
    data(&mut sim, 0x00);
    assert_eq!(sim.graphics().pixel(0, 0), BLACK);
    assert_eq!(sim.cursor().x, 1);
    assert_eq!(sim.cursor().y, 0);
}

#[test]
fn ramwr_wraps_at_window_end_value() {
    let mut sim = Simulator::new(8, 6);
    // Default window is (0, 7): x wraps when it reaches 7, so the row takes
    // seven pixels and column 7 is never written by advancement.
    cmd(&mut sim, 0x2C);
    for _ in 0..7 {
        word(&mut sim, 0xFFFF);
    }
    assert_eq!(sim.cursor().x, 0, "x wraps to the window start");
    assert_eq!(sim.cursor().y, 1, "y steps down one row");
    for x in 0..7 {
        assert_eq!(sim.graphics().pixel(x, 0), WHITEISH);
    }
    assert_eq!(sim.graphics().pixel(7, 0), BLACK, "the end column stays untouched");
}

#[test]
fn dispoff_then_dispon_leaves_display_on() {
    let mut sim = Simulator::new(4, 4);
    cmd(&mut sim, 0x28);
    assert!(!sim.graphics().display(), "DISPOFF alone leaves the display off");
    cmd(&mut sim, 0x29);
    assert!(sim.graphics().display(), "DISPON restores the display");
}

#[test]
fn invon_twice_same_as_once() {
    let mut once = Simulator::new(4, 4);
    cmd(&mut once, 0x21);
    let mut twice = Simulator::new(4, 4);
    cmd(&mut twice, 0x21);
    cmd(&mut twice, 0x21);
    assert!(once.graphics().inverse());
    assert!(twice.graphics().inverse());
    assert_eq!(once.command(), twice.command());
    assert_eq!(once.cursor(), twice.cursor());
    assert_eq!(once.x_window(), twice.x_window());
    assert_eq!(once.y_window(), twice.y_window());
}

#[test]
fn invoff_turns_inversion_off() {
    let mut sim = Simulator::new(4, 4);
    cmd(&mut sim, 0x21);
    assert!(sim.graphics().inverse());
    cmd(&mut sim, 0x20);
    assert!(!sim.graphics().inverse());
}

#[test]
fn chip_deselected_ignores_every_byte() {
    let mut sim = Simulator::new(4, 4);
    sim.csx_high();
    // Commands and data alike must change nothing while deselected.
    cmd(&mut sim, 0x28);
    cmd(&mut sim, 0x21);
    cmd(&mut sim, 0x2C);
    data(&mut sim, 0xFF);
    data(&mut sim, 0xFF);
    assert!(sim.graphics().display());
    assert!(!sim.graphics().inverse());
    assert_eq!(sim.command(), 0x00);
    assert_eq!(sim.cursor().x, 0);
    assert_eq!(sim.cursor().y, 0);
    for y in 0..4 {
        for x in 0..4 {
            assert_eq!(sim.graphics().pixel(x, y), BLACK);
        }
    }
    // Reselecting the chip brings the decoder back to life.
    sim.csx_low();
    cmd(&mut sim, 0x28);
    assert!(!sim.graphics().display());
}

#[test]
fn madctl_sets_orientation_flags() {
    let mut sim = Simulator::new(4, 4);
    cmd(&mut sim, 0x36);
    data(&mut sim, 0xA0);
    // Bit 7 is mirror-y, bit 6 mirror-x, bit 5 axis swap, bit 4 scan order.
    let (mirror_x, mirror_y, xy_switch, scan_order) = sim.orientation();
    assert!(!mirror_x);
    assert!(mirror_y);
    assert!(xy_switch);
    assert!(!scan_order);
    cmd(&mut sim, 0x36);
    data(&mut sim, 0x50);
    assert_eq!(sim.orientation(), (true, false, false, true));
    // The low nibble is ignored.
    cmd(&mut sim, 0x36);
    data(&mut sim, 0x0F);
    assert_eq!(sim.orientation(), (false, false, false, false));
}

#[test]
fn unknown_opcode_absorbed_silently() {
    let mut sim = Simulator::new(4, 4);
    cmd(&mut sim, 0x55);
    assert_eq!(sim.command(), 0x55);
    data(&mut sim, 0x12);
    data(&mut sim, 0x34);
    assert_eq!(sim.cursor().x, 0);
    assert_eq!(sim.x_window(), (0, 3));
    assert_eq!(sim.y_window(), (0, 3));
    for y in 0..4 {
        for x in 0..4 {
            assert_eq!(sim.graphics().pixel(x, y), BLACK);
        }
    }
}

#[test]
fn caset_fifth_byte_restarts_accumulation() {
    let mut sim = Simulator::new(64, 64);
    caset(&mut sim, 1, 5);
    assert_eq!(sim.x_window(), (1, 5));
    // The four bytes consumed the buffer: four more set a fresh window.
    data(&mut sim, 0x00);
    data(&mut sim, 0x02);
    data(&mut sim, 0x00);
    data(&mut sim, 0x06);
    assert_eq!(sim.x_window(), (2, 6));
}

#[test]
fn full_grid_fill_visits_every_cell_once() {
    // With the window end values one past the grid edge, the wrap at `end`
    // lands exactly past the last column and row: 64 words cover an 8x8 grid
    // once, in row-major order, and the cursor wraps back to the origin.
    let mut sim = Simulator::new(8, 8);
    caset(&mut sim, 0, 8);
    paset(&mut sim, 0, 8);
    cmd(&mut sim, 0x2C);
    for _ in 0..64 {
        word(&mut sim, 0xFFFF);
    }
    for y in 0..8 {
        for x in 0..8 {
            assert_eq!(sim.graphics().pixel(x, y), WHITEISH);
        }
    }
    assert_eq!(sim.cursor().x, 0);
    assert_eq!(sim.cursor().y, 0);
}

#[test]
fn full_grid_fill_row_major_order() {
    // Distinct words land in row-major cells: cell (x, y) gets word y*8+x.
    let mut sim = Simulator::new(8, 8);
    caset(&mut sim, 0, 8);
    paset(&mut sim, 0, 8);
    cmd(&mut sim, 0x2C);
    for i in 0..64u16 {
        // Spread the index over the blue channel bits.
        word(&mut sim, i & 0x1F);
    }
    for y in 0..8u16 {
        for x in 0..8u16 {
            let w = (y * 8 + x) & 0x1F;
            assert_eq!(
                sim.graphics().pixel(x as usize, y as usize),
                Pixel::decode_b(w)
            );
        }
    }
}

#[test]
fn default_window_fill_skips_end_column_and_row() {
    // With the reset window (0, 7) x (0, 7) on an 8x8 grid, the wrap at the
    // end value keeps advancement inside a 7x7 region: the end column and
    // end row stay black, and after 64 words (period 49) the cursor sits at
    // (1, 2), not at the origin.
    let mut sim = Simulator::new(8, 8);
    cmd(&mut sim, 0x2C);
    for _ in 0..64 {
        word(&mut sim, 0xFFFF);
    }
    for k in 0..8 {
        assert_eq!(sim.graphics().pixel(7, k), BLACK);
        assert_eq!(sim.graphics().pixel(k, 7), BLACK);
    }
    for y in 0..7 {
        for x in 0..7 {
            assert_eq!(sim.graphics().pixel(x, y), WHITEISH);
        }
    }
    assert_eq!(sim.cursor().x, 1);
    assert_eq!(sim.cursor().y, 2);
}

#[test]
fn window_beyond_grid_absorbs_out_of_range_writes() {
    // A window larger than the framebuffer never halts the stream: writes
    // with the cursor outside the grid are dropped, the cursor keeps moving.
    let mut sim = Simulator::new(4, 1);
    caset(&mut sim, 0, 100);
    cmd(&mut sim, 0x2C);
    for _ in 0..10 {
        word(&mut sim, 0xFFFF);
    }
    for x in 0..4 {
        assert_eq!(sim.graphics().pixel(x, 0), WHITEISH);
    }
    assert_eq!(sim.cursor().x, 10);
    assert_eq!(sim.cursor().y, 0);
}

#[test]
fn end_to_end_dense_scenario() {
    // A burst mixing every recognised command.
    let mut sim = Simulator::new(8, 8);
    cmd(&mut sim, 0x21);
    cmd(&mut sim, 0x28);
    caset(&mut sim, 2, 8);
    paset(&mut sim, 3, 8);
    cmd(&mut sim, 0x2C);
    assert_eq!(sim.cursor().x, 2);
    assert_eq!(sim.cursor().y, 3);
    word(&mut sim, 0x1234);
    assert_eq!(sim.graphics().pixel(2, 3), Pixel { r: 16, g: 68, b: 160 });
    assert_eq!(sim.cursor().x, 3);
    cmd(&mut sim, 0x29);
    cmd(&mut sim, 0x20);
    assert!(sim.graphics().display());
    assert!(!sim.graphics().inverse());
    // The pixel written before the flag commands is still there.
    assert_eq!(sim.graphics().pixel(2, 3), Pixel { r: 16, g: 68, b: 160 });
}
