//! Framebuffer and pixel colour decoding.

use vstd::prelude::*;

verus! {

/// One framebuffer cell: three 8-bit colour channels.
#[derive(Clone, Copy, Debug, PartialEq, Eq, Structural)]
pub struct Pixel {
    pub r: u8,
    pub g: u8,
    pub b: u8,
}

/// The compact low-depth layout: red in bits 9..=12, green in bits 4..=8,
/// blue in bits 0..=3, each channel kept at its raw bit-field width.
pub open spec fn spec_decode_a(data: u16) -> Pixel {
    Pixel {
        r: ((data >> 9) & 0x0f) as u8,
        g: ((data >> 4) & 0x1f) as u8,
        b: (data & 0x0f) as u8,
    }
}

/// The RGB565 layout: red in bits 11..=15, green in bits 5..=10, blue in
/// bits 0..=4, each channel shifted toward the 8-bit range.
pub open spec fn spec_decode_b(data: u16) -> Pixel {
    Pixel {
        r: ((data & 0xf800) >> 8) as u8,
        g: ((data & 0x07e0) >> 3) as u8,
        b: ((data & 0x001f) << 3) as u8,
    }
}

impl Pixel {
    /// Decode a 16-bit colour word under the compact 4/5/4-style layout.
    /// Total and deterministic: defined for every 16-bit word.
    pub fn decode_a(data: u16) -> (r: Pixel)
        ensures
            r == spec_decode_a(data),
    {
        Pixel {
            r: ((data >> 9) & 0x0f) as u8,
            g: ((data >> 4) & 0x1f) as u8,
            b: (data & 0x0f) as u8,
        }
    }

    /// Decode a 16-bit colour word under the RGB565 layout.
    /// Total and deterministic: defined for every 16-bit word.
    pub fn decode_b(data: u16) -> (r: Pixel)
        ensures
            r == spec_decode_b(data),
    {
        Pixel {
            r: ((data & 0xf800) >> 8) as u8,
            g: ((data & 0x07e0) >> 3) as u8,
            b: ((data & 0x001f) << 3) as u8,
        }
    }

    /// Decode a 16-bit colour word under the layout this device uses (RGB565).
    pub fn from(data: u16) -> (r: Pixel)
        ensures
            r == spec_decode_b(data),
    {
        Pixel::decode_b(data)
    }
}

impl Default for Pixel {
    /// The default pixel is black: all channels zero.
    fn default() -> (r: Self)
        ensures
            r == (Pixel { r: 0, g: 0, b: 0 }),
    {
        Pixel { r: 0, g: 0, b: 0 }
    }
}

/// An (x, y) coordinate into the framebuffer grid.
#[derive(Clone, Copy, Debug, PartialEq, Eq, Structural)]
pub struct Point {
    pub x: usize,
    pub y: usize,
}

impl Default for Point {
    /// The default point is the origin.
    fn default() -> (r: Self)
        ensures
            r == (Point { x: 0, y: 0 }),
    {
        Point { x: 0, y: 0 }
    }
}

/// Mathematical model of the framebuffer: grid contents and the two flags.
#[verifier::ext_equal]
pub ghost struct GraphicModel {
    pub width: nat,
    pub height: nat,
    /// Row-major grid contents: cell (x, y) is `gram[y * width + x]`.
    pub gram: Seq<Pixel>,
    pub display: bool,
    pub inverse: bool,
}

impl GraphicModel {
    /// The framebuffer invariant: non-degenerate dimensions, a grid of
    /// exactly `width * height` cells, and a size a linear index can address.
    pub open spec fn wf(self) -> bool {
        &&& 1 <= self.width
        &&& 1 <= self.height
        &&& self.width * self.height <= usize::MAX
        &&& self.gram.len() == self.width * self.height
    }

    /// The framebuffer as constructed: all cells black, display on,
    /// inversion off.
    pub open spec fn init(width: nat, height: nat) -> GraphicModel {
        GraphicModel {
            width,
            height,
            gram: Seq::new(width * height, |i: int| Pixel { r: 0, g: 0, b: 0 }),
            display: true,
            inverse: false,
        }
    }
}

/// A fixed-size grid of pixels plus the display-enabled and inverted flags.
pub struct GraphicData {
    width: usize,
    height: usize,
    gram: Vec<Pixel>,
    display: bool,
    inverse: bool,
}

impl View for GraphicData {
    type V = GraphicModel;

    closed spec fn view(&self) -> GraphicModel {
        GraphicModel {
            width: self.width as nat,
            height: self.height as nat,
            gram: self.gram@,
            display: self.display,
            inverse: self.inverse,
        }
    }
}

impl GraphicData {
    /// Allocate a `width * height` grid of black pixels, with the display
    /// enabled and inversion off.
    pub fn new(width: usize, height: usize) -> (r: Self)
        requires
            1 <= width,
            1 <= height,
            width * height <= usize::MAX,
        ensures
            r@ == GraphicModel::init(width as nat, height as nat),
            r@.wf(),
    {
        let size: usize = width * height;
        let mut gram: Vec<Pixel> = Vec::new();
        while gram.len() < size
            invariant
                gram@.len() <= size,
                forall|i: int| 0 <= i < gram@.len() ==> gram@[i] == (Pixel { r: 0, g: 0, b: 0 }),
            decreases size - gram@.len(),
        {
            gram.push(Pixel { r: 0, g: 0, b: 0 });
        }
        let r = GraphicData { width, height, gram, display: true, inverse: false };
        proof {
            assert(r@.gram =~= GraphicModel::init(width as nat, height as nat).gram);
            assert(r@ =~= GraphicModel::init(width as nat, height as nat));
        }
        r
    }

    /// Overwrite the cell at `point`. The caller keeps the coordinates in
    /// range; the linear index is `y * width + x`.
    pub fn set(&mut self, point: Point, value: Pixel)
        requires
            old(self)@.wf(),
            point.x < old(self)@.width,
            point.y < old(self)@.height,
        ensures
            final(self)@ == (GraphicModel {
                gram: old(self)@.gram.update(
                    point.y * old(self)@.width + point.x,
                    value,
                ),
                ..old(self)@
            }),
            final(self)@.wf(),
    {
        proof {
            lemma_grid_index_in_range(
                self@.width,
                self@.height,
                point.x as nat,
                point.y as nat,
            );
        }
        let index: usize = point.x + point.y * self.width;
        self.gram.set(index, value);
        proof {
            assert(index == point.y * old(self)@.width + point.x);
        }
    }

    /// The grid width, in pixels.
    pub fn width(&self) -> (r: usize)
        ensures
            r == self@.width,
    {
        self.width
    }

    /// The grid height, in pixels.
    pub fn height(&self) -> (r: usize)
        ensures
            r == self@.height,
    {
        self.height
    }

    /// Read the cell at `(x, y)`.
    pub fn pixel(&self, x: usize, y: usize) -> (r: Pixel)
        requires
            self@.wf(),
            x < self@.width,
            y < self@.height,
        ensures
            r == self@.gram[y * self@.width + x],
    {
        proof {
            lemma_grid_index_in_range(self@.width, self@.height, x as nat, y as nat);
        }
        let index: usize = x + y * self.width;
        self.gram[index]
    }

    /// Whether the display is enabled.
    pub fn display(&self) -> (r: bool)
        ensures
            r == self@.display,
    {
        self.display
    }

    /// Whether display inversion is on.
    pub fn inverse(&self) -> (r: bool)
        ensures
            r == self@.inverse,
    {
        self.inverse
    }

    /// Set the display-enabled flag.
    pub fn set_display(&mut self, value: bool)
        ensures
            final(self)@ == (GraphicModel { display: value, ..old(self)@ }),
    {
        self.display = value;
    }

    /// Set the inverted flag.
    pub fn set_inverse(&mut self, value: bool)
        ensures
            final(self)@ == (GraphicModel { inverse: value, ..old(self)@ }),
    {
        self.inverse = value;
    }
}

/// A well-formed grid's dimensions each fit in the machine word.
pub proof fn lemma_width_height_bounded(g: GraphicModel)
    requires
        g.wf(),
    ensures
        g.width <= usize::MAX,
        g.height <= usize::MAX,
{
    assert(g.width <= g.width * g.height && g.height <= g.width * g.height)
        by (nonlinear_arith)
        requires
            1 <= g.width,
            1 <= g.height,
    ;
}

/// A row-major index `y * width + x` with `x < width` and `y < height` lies
/// inside a `width * height` grid.
pub proof fn lemma_grid_index_in_range(width: nat, height: nat, x: nat, y: nat)
    requires
        x < width,
        y < height,
    ensures
        y * width + x < width * height,
{
    assert(y * width + x < width * height) by (nonlinear_arith)
        requires
            x < width,
            y < height,
    ;
}

} // verus!
