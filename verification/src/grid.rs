//! Grids of luminance values.
//!
//! Both grids hold one byte per pixel, row after row: the pixel in row `r`
//! and column `c` of a grid of width `w` stands at index `r * w + c`.

use vstd::prelude::*;

verus! {

/// The width of the canvas, in pixels.
pub const CANVAS_WIDTH: u32 = 28;

/// The height of the canvas, in pixels.
pub const CANVAS_HEIGHT: u32 = 28;

/// The number of pixels of the canvas.
pub const CANVAS_PIXELS: usize = 784;

/// A luminance grid of any size: what is left of a decoded image once its
/// colour is gone.
#[derive(Debug)]
pub struct LumaImage {
    width: u32,
    height: u32,
    pixels: Vec<u8>,
}

impl View for LumaImage {
    type V = Seq<u8>;

    /// The pixels, row after row.
    closed spec fn view(&self) -> Seq<u8> {
        self.pixels@
    }
}

impl LumaImage {
    #[verifier::type_invariant]
    spec fn well_formed(self) -> bool {
        self.pixels@.len() == self.width * self.height
    }

    /// The number of columns.
    pub closed spec fn spec_width(&self) -> u32 {
        self.width
    }

    /// The number of rows.
    pub closed spec fn spec_height(&self) -> u32 {
        self.height
    }

    /// The grid of the given size over the given pixels, where there is one
    /// pixel for each place of the grid, and nothing otherwise.
    pub fn new(width: u32, height: u32, pixels: Vec<u8>) -> (image: Option<LumaImage>)
        ensures
            image is Some <==> pixels@.len() == width * height,
            image is Some ==> {
                &&& image->Some_0@ == pixels@
                &&& image->Some_0.spec_width() == width
                &&& image->Some_0.spec_height() == height
            },
    {
        assert(width * height <= u64::MAX) by (nonlinear_arith)
            requires
                width <= u32::MAX,
                height <= u32::MAX,
        ;
        if pixels.len() as u64 == width as u64 * height as u64 {
            Some(LumaImage { width, height, pixels })
        } else {
            None
        }
    }

    /// The number of columns.
    #[verifier::when_used_as_spec(spec_width)]
    pub fn width(&self) -> (width: u32)
        ensures
            width == self.spec_width(),
    {
        self.width
    }

    /// The number of rows.
    #[verifier::when_used_as_spec(spec_height)]
    pub fn height(&self) -> (height: u32)
        ensures
            height == self.spec_height(),
    {
        self.height
    }

    /// The pixels, row after row: one for each place of the grid.
    pub fn pixels(&self) -> (pixels: &Vec<u8>)
        ensures
            pixels@ == self@,
            pixels@.len() == self.spec_width() * self.spec_height(),
    {
        proof {
            use_type_invariant(self);
        }
        &self.pixels
    }

    /// The pixel in the given row and column, where the grid has one.
    pub fn get(&self, row: u32, column: u32) -> (pixel: Option<u8>)
        ensures
            pixel is Some <==> row < self.spec_height() && column < self.spec_width(),
            pixel is Some ==> pixel->Some_0 == self@[row * self.spec_width() + column],
    {
        proof {
            use_type_invariant(self);
        }
        let count: usize = self.pixels.len();
        if row < self.height && column < self.width {
            assert(0 <= (row as int) * (self.width as int) && (row as int) * (self.width as int)
                + column < count) by (nonlinear_arith)
                requires
                    row < self.height,
                    column < self.width,
                    count == self.width * self.height,
            ;
            let index: usize = row as usize * self.width as usize + column as usize;
            Some(self.pixels[index])
        } else {
            None
        }
    }
}

/// The fixed grid of 28 rows and 28 columns that the model is fed from.
#[derive(Debug)]
pub struct GrayscaleCanvas {
    pixels: Vec<u8>,
}

impl View for GrayscaleCanvas {
    type V = Seq<u8>;

    /// The pixels, row after row.
    closed spec fn view(&self) -> Seq<u8> {
        self.pixels@
    }
}

impl GrayscaleCanvas {
    #[verifier::type_invariant]
    spec fn well_formed(self) -> bool {
        self.pixels@.len() == CANVAS_PIXELS
    }

    /// The canvas over the given pixels, where there are exactly 784 of
    /// them, and nothing otherwise.
    pub fn from_pixels(pixels: Vec<u8>) -> (canvas: Option<GrayscaleCanvas>)
        ensures
            canvas is Some <==> pixels@.len() == CANVAS_PIXELS,
            canvas is Some ==> canvas->Some_0@ == pixels@,
    {
        if pixels.len() == CANVAS_PIXELS {
            Some(GrayscaleCanvas { pixels })
        } else {
            None
        }
    }

    /// The number of columns: always 28.
    pub fn width(&self) -> (width: u32)
        ensures
            width == CANVAS_WIDTH,
    {
        CANVAS_WIDTH
    }

    /// The number of rows: always 28.
    pub fn height(&self) -> (height: u32)
        ensures
            height == CANVAS_HEIGHT,
    {
        CANVAS_HEIGHT
    }

    /// The 784 pixels, row after row.
    pub fn pixels(&self) -> (pixels: &Vec<u8>)
        ensures
            pixels@ == self@,
            pixels@.len() == CANVAS_PIXELS,
    {
        proof {
            use_type_invariant(self);
        }
        &self.pixels
    }

    /// The pixel in the given row and column, where both are below 28.
    pub fn get(&self, row: u32, column: u32) -> (pixel: Option<u8>)
        ensures
            pixel is Some <==> row < CANVAS_HEIGHT && column < CANVAS_WIDTH,
            pixel is Some ==> pixel->Some_0 == self@[row * CANVAS_WIDTH + column],
    {
        proof {
            use_type_invariant(self);
        }
        if row < CANVAS_HEIGHT && column < CANVAS_WIDTH {
            let index: usize = (row * CANVAS_WIDTH + column) as usize;
            Some(self.pixels[index])
        } else {
            None
        }
    }

    /// The shape of the tensor that the model is fed with: one batch of one
    /// channel of 28 rows of 28 columns. The pixels of the canvas fill it in
    /// their own order.
    pub fn tensor_shape(&self) -> (shape: (usize, usize, usize, usize))
        ensures
            shape == (1usize, 1usize, 28usize, 28usize),
            shape.0 * shape.1 * shape.2 * shape.3 == self@.len(),
    {
        proof {
            use_type_invariant(self);
        }
        (1, 1, 28, 28)
    }

    /// The canvas as a luminance grid of 28 rows and 28 columns.
    pub fn to_image(&self) -> (image: LumaImage)
        ensures
            image@ == self@,
            image.spec_width() == CANVAS_WIDTH,
            image.spec_height() == CANVAS_HEIGHT,
    {
        proof {
            use_type_invariant(self);
        }
        let pixels: Vec<u8> = self.pixels.clone();
        assert(pixels@ =~= self.pixels@);
        assert(CANVAS_WIDTH * CANVAS_HEIGHT == CANVAS_PIXELS) by (nonlinear_arith);
        LumaImage { width: CANVAS_WIDTH, height: CANVAS_HEIGHT, pixels }
    }
}

impl Clone for LumaImage {
    /// A grid of the same size over the same pixels.
    fn clone(&self) -> (copy: LumaImage)
        ensures
            copy@ == self@,
            copy.spec_width() == self.spec_width(),
            copy.spec_height() == self.spec_height(),
    {
        proof {
            use_type_invariant(self);
        }
        let pixels: Vec<u8> = self.pixels.clone();
        assert(pixels@ =~= self.pixels@);
        LumaImage { width: self.width, height: self.height, pixels }
    }
}

impl Clone for GrayscaleCanvas {
    /// A canvas over the same pixels.
    fn clone(&self) -> (copy: GrayscaleCanvas)
        ensures
            copy@ == self@,
    {
        proof {
            use_type_invariant(self);
        }
        let pixels: Vec<u8> = self.pixels.clone();
        assert(pixels@ =~= self.pixels@);
        GrayscaleCanvas { pixels }
    }
}

} // verus!
