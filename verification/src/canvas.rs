//! The canvas on which a QR code is drawn before it becomes an engine image:
//! a row-major grid of light and dark pixels.

use vstd::prelude::*;

verus! {

/// The abstract canvas: its size and, row by row, which pixels are dark.
pub struct CanvasView {
    pub width: nat,
    pub height: nat,
    pub dark: Seq<bool>,
}

/// A pixel grid, `width` pixels per row, all light until drawn on.
pub struct PixelCanvas {
    width: u32,
    height: u32,
    dark: Vec<bool>,
}

impl View for PixelCanvas {
    type V = CanvasView;

    closed spec fn view(&self) -> CanvasView {
        CanvasView { width: self.width as nat, height: self.height as nat, dark: self.dark@ }
    }
}

/// The position of pixel (`x`, `y`) in the row-major grid.
pub open spec fn pixel_index(width: nat, x: nat, y: nat) -> nat {
    x + y * width
}

/// A canvas is well formed when its grid holds one entry per pixel and the
/// pixel count fits in a `u32`.
pub open spec fn canvas_wf(canvas: CanvasView) -> bool {
    &&& canvas.dark.len() == canvas.width * canvas.height
    &&& canvas.width * canvas.height <= u32::MAX
}

/// A pixel inside the canvas's width and height lies in its grid.
pub proof fn lemma_pixel_on_canvas(canvas: CanvasView, x: nat, y: nat)
    requires
        canvas_wf(canvas),
        x < canvas.width,
        y < canvas.height,
    ensures
        pixel_index(canvas.width, x, y) < canvas.dark.len(),
{
    assert(y * canvas.width + canvas.width <= canvas.height * canvas.width) by (nonlinear_arith)
        requires
            y < canvas.height,
    ;
    assert(canvas.height * canvas.width == canvas.width * canvas.height) by (nonlinear_arith);
}

impl PixelCanvas {

    /// A light canvas of `width` by `height` pixels; their product must fit in
    /// a `u32`.
    pub fn new(width: u32, height: u32) -> (canvas: PixelCanvas)
        requires
            width * height <= u32::MAX,
        ensures
            canvas_wf(canvas@),
            canvas@.width == width,
            canvas@.height == height,
            canvas@.dark == Seq::new((width * height) as nat, |i: int| false),
    {
        let count = width * height;
        let mut dark: Vec<bool> = Vec::new();
        let mut i: u32 = 0;
        while i < count
            invariant
                i <= count,
                dark@ == Seq::new(i as nat, |j: int| false),
            decreases count - i,
        {
            dark.push(false);
            i = i + 1;
            proof {
                assert(dark@ =~= Seq::new(i as nat, |j: int| false));
            }
        }
        PixelCanvas { width, height, dark }
    }

    /// Makes pixel (`x`, `y`) dark. Its position must be on the canvas and
    /// computable in a `u32`.
    pub fn draw_dark_pixel(&mut self, x: u32, y: u32)
        requires
            canvas_wf(old(self)@),
            pixel_index(old(self)@.width, x as nat, y as nat) < old(self)@.dark.len(),
        ensures
            canvas_wf(final(self)@),
            final(self)@ == drawn(old(self)@, pixel_index(old(self)@.width, x as nat, y as nat) as int),
            final(self)@.width == old(self)@.width,
            final(self)@.height == old(self)@.height,
            final(self)@.dark.len() == old(self)@.dark.len(),
            final(self)@.dark[x + y * old(self)@.width],
            forall|j: int|
                0 <= j < old(self)@.dark.len() && j != x + y * old(self)@.width ==> final(self)@.dark[j]
                    == old(self)@.dark[j],
    {
        let index = x + y * self.width;
        self.dark.set(index as usize, true);
    }

    /// The width in pixels.
    pub fn width(&self) -> (width: u32)
        ensures
            width == self@.width,
    {
        self.width
    }

    /// The height in pixels.
    pub fn height(&self) -> (height: u32)
        ensures
            height == self@.height,
    {
        self.height
    }

    /// Whether the pixel at position `index` of the row-major grid is dark.
    pub fn is_dark(&self, index: usize) -> (dark: bool)
        requires
            index < self@.dark.len(),
        ensures
            dark == self@.dark[index as int],
    {
        self.dark[index]
    }
}


/// The canvas after drawing the pixel at position `index` dark.
pub open spec fn drawn(canvas: CanvasView, index: int) -> CanvasView {
    CanvasView { dark: canvas.dark.update(index, true), ..canvas }
}

/// Drawing dark pixels does not depend on the order, and drawing one twice
/// is drawing it once.
pub proof fn lemma_drawing_commutes(canvas: CanvasView, i: int, j: int)
    requires
        0 <= i < canvas.dark.len(),
        0 <= j < canvas.dark.len(),
    ensures
        drawn(drawn(canvas, i), j) == drawn(drawn(canvas, j), i),
        drawn(drawn(canvas, i), i) == drawn(canvas, i),
{
    assert(drawn(drawn(canvas, i), j).dark =~= drawn(drawn(canvas, j), i).dark);
    assert(drawn(drawn(canvas, i), i).dark =~= drawn(canvas, i).dark);
}


/// Drawing pixel (`x`, `y`) of a canvas darkens grid entry `x + y * width` —
/// column `x` of row `y` — and leaves every other entry as it was.
pub proof fn lemma_drawing_is_row_major(canvas: CanvasView, x: nat, y: nat)
    requires
        canvas_wf(canvas),
        x < canvas.width,
        y < canvas.height,
    ensures
        ({
            let after = drawn(canvas, pixel_index(canvas.width, x, y) as int);
            &&& after.width == canvas.width && after.height == canvas.height
            &&& after.dark.len() == canvas.dark.len()
            &&& after.dark[(x + y * canvas.width) as int]
            &&& forall|j: int| 0 <= j < canvas.dark.len() && j != x + y * canvas.width ==> after.dark[j] == canvas.dark[j]
        }),
{
    lemma_pixel_on_canvas(canvas, x, y);
}

} // verus!
