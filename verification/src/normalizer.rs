//! The normalizer: from a luminance grid of any size to the 28 x 28 canvas.
//!
//! The grid is resampled with the nearest-neighbour filter of the `image`
//! crate: every pixel of the canvas takes the value of one pixel of the
//! grid. Each axis is stretched or shrunk by itself, so a grid that is not
//! square is distorted, and nothing is cropped or padded.

use vstd::prelude::*;
use crate::grid::{GrayscaleCanvas, LumaImage, CANVAS_HEIGHT, CANVAS_PIXELS, CANVAS_WIDTH};

verus! {

/// The pixels that `image::imageops::resize` returns, with its filter
/// `Nearest`, for a luminance grid of the given width and height over the
/// given pixels and for the given new width and height.
pub uninterp spec fn nearest_resize(
    pixels: Seq<u8>,
    width: nat,
    height: nat,
    new_width: nat,
    new_height: nat,
) -> Seq<u8>;

/// The index, along one axis, of the source pixel that
/// `image::imageops::resize` takes with its filter `Nearest` for the pixel
/// at `index` of the result, where the axis has `old_len` pixels in the
/// source and `new_len` in the result. The function computes it in 32-bit
/// floating point from these three numbers alone, in the same way for rows
/// and for columns.
pub uninterp spec fn nearest_source(index: nat, old_len: nat, new_len: nat) -> nat;

/// Whether the source indices of an axis lie within the source and never
/// step back as the index in the result grows.
pub open spec fn is_axis_map(old_len: nat, new_len: nat) -> bool {
    &&& forall|index: nat|
        index < new_len ==> #[trigger] nearest_source(index, old_len, new_len) < old_len
    &&& forall|lower: nat, upper: nat|
        lower <= upper < new_len ==> #[trigger] nearest_source(lower, old_len, new_len)
            <= #[trigger] nearest_source(upper, old_len, new_len)
}

/// Whether `resized` samples the grid of the given width and height over
/// `pixels` axis by axis: its pixel in row `y` and column `x` is the pixel
/// of the grid in the source row of `y` and the source column of `x`.
pub open spec fn is_nearest_sampling(
    resized: Seq<u8>,
    pixels: Seq<u8>,
    width: nat,
    height: nat,
    new_width: nat,
    new_height: nat,
) -> bool {
    &&& is_axis_map(width, new_width)
    &&& is_axis_map(height, new_height)
    &&& forall|y: nat|
        y < new_height ==> forall|x: nat|
            x < new_width ==> resized[(y * new_width + x) as int] == pixels[((
            #[trigger] nearest_source(y, height, new_height)) * width + (#[trigger] nearest_source(
                x,
                width,
                new_width,
            ))) as int]
}

/// Calls `image::imageops::resize` with the filter `Nearest` on the grid
/// of the given width and height over the given pixels.
///
/// The claims are those that the function's source shows. The result has
/// one pixel for each place of the new grid. Where the new size is the old
/// one, the result is a copy of the grid. Where the grid has no pixel, the
/// result is black. Otherwise each pixel of the result is one pixel of the
/// grid, in a row told by its own row and a column told by its own column,
/// and neither steps back: this is said once pixel by pixel, and once as
/// the relation that the normalizer's contract uses, which adds where the
/// source indices lie. The function panics where one of its two buffers
/// cannot be allocated: one of four 32-bit values for each pixel of a grid
/// of the old width and the new height, and the result.
#[verifier::external_body]
fn resize_nearest(pixels: &[u8], width: u32, height: u32, new_width: u32, new_height: u32) -> (resized:
    Vec<u8>)
    requires
        pixels@.len() == width * height,
        16 * width * new_height <= isize::MAX,
        new_width * new_height <= isize::MAX,
    ensures
        resized@ == nearest_resize(
            pixels@,
            width as nat,
            height as nat,
            new_width as nat,
            new_height as nat,
        ),
        resized@.len() == new_width * new_height,
        width == new_width && height == new_height ==> resized@ == pixels@,
        width == 0 || height == 0 ==> forall|i: int|
            0 <= i < resized@.len() ==> #[trigger] resized@[i] == 0,
        width > 0 && height > 0 && !(width == new_width && height == new_height) ==> forall|y: nat|
            y < new_height ==> forall|x: nat|
                x < new_width ==> resized@[y * new_width + x] == pixels@[(
                #[trigger] nearest_source(y, height as nat, new_height as nat)) * width + (
                #[trigger] nearest_source(x, width as nat, new_width as nat))],
        width > 0 && height > 0 && !(width == new_width && height == new_height)
            ==> is_nearest_sampling(
            resized@,
            pixels@,
            width as nat,
            height as nat,
            new_width as nat,
            new_height as nat,
        ),
{
    let grid = image::ImageBuffer::<image::Luma<u8>, &[u8]>::from_raw(width, height, pixels)
        .expect("one pixel for each place of the grid");
    image::imageops::resize(&grid, new_width, new_height, image::imageops::FilterType::Nearest)
        .into_raw()
}

/// The pixels of the canvas for a grid of the given width and height over
/// the given pixels.
pub open spec fn canvas_pixels(pixels: Seq<u8>, width: nat, height: nat) -> Seq<u8> {
    nearest_resize(pixels, width, height, CANVAS_WIDTH as nat, CANVAS_HEIGHT as nat)
}

/// Whether `canvas` holds the pixels of the canvas for a grid of the given
/// width and height over the given pixels.
///
/// The canvas is what the resampling returns, and it has 784 pixels. For a
/// grid of 28 rows and 28 columns it is the grid itself, and for a grid
/// without pixels it is black. For any other grid it samples the grid axis
/// by axis.
pub open spec fn is_canvas_of(canvas: Seq<u8>, pixels: Seq<u8>, width: nat, height: nat) -> bool {
    &&& canvas == canvas_pixels(pixels, width, height)
    &&& canvas.len() == CANVAS_PIXELS
    &&& width == CANVAS_WIDTH && height == CANVAS_HEIGHT ==> canvas == pixels
    &&& width == 0 || height == 0 ==> forall|i: int|
        0 <= i < canvas.len() ==> #[trigger] canvas[i] == 0
    &&& width > 0 && height > 0 && !(width == CANVAS_WIDTH && height == CANVAS_HEIGHT)
        ==> is_nearest_sampling(
        canvas,
        pixels,
        width,
        height,
        CANVAS_WIDTH as nat,
        CANVAS_HEIGHT as nat,
    )
}

/// The canvas of any grid has 28 rows of 28 pixels, and each of them lies
/// between 0 and 255.
pub proof fn lemma_canvas_shape(canvas: Seq<u8>, pixels: Seq<u8>, width: nat, height: nat)
    requires
        is_canvas_of(canvas, pixels, width, height),
    ensures
        canvas.len() == CANVAS_WIDTH * CANVAS_HEIGHT,
        forall|i: int| 0 <= i < canvas.len() ==> 0 <= #[trigger] canvas[i] <= 255,
{
}

/// Resampling is repeatable: a grid has one canvas only, so two runs on
/// grids of one size over the same pixels give the same canvas.
pub proof fn lemma_canvas_deterministic(
    first: Seq<u8>,
    second: Seq<u8>,
    pixels: Seq<u8>,
    again: Seq<u8>,
    width: nat,
    height: nat,
)
    requires
        pixels =~= again,
        is_canvas_of(first, pixels, width, height),
        is_canvas_of(second, again, width, height),
    ensures
        first == second,
{
}

/// Resampling a canvas changes nothing: the canvas of a canvas is that
/// canvas.
pub proof fn lemma_canvas_idempotent(
    once: Seq<u8>,
    twice: Seq<u8>,
    pixels: Seq<u8>,
    width: nat,
    height: nat,
)
    requires
        is_canvas_of(once, pixels, width, height),
        is_canvas_of(twice, once, CANVAS_WIDTH as nat, CANVAS_HEIGHT as nat),
    ensures
        twice == once,
{
}

/// Nothing is padded: every pixel of the canvas of a grid that has pixels is
/// a pixel of that grid.
pub proof fn lemma_canvas_takes_grid_pixels(
    canvas: Seq<u8>,
    pixels: Seq<u8>,
    width: nat,
    height: nat,
)
    requires
        is_canvas_of(canvas, pixels, width, height),
        width > 0,
        height > 0,
        pixels.len() == width * height,
    ensures
        forall|i: int| 0 <= i < canvas.len() ==> pixels.contains(#[trigger] canvas[i]),
{
    assert forall|i: int| 0 <= i < canvas.len() implies pixels.contains(#[trigger] canvas[i]) by {
        if width == CANVAS_WIDTH && height == CANVAS_HEIGHT {
            assert(canvas[i] == pixels[i]);
        } else {
            let y = (i / 28) as nat;
            let x = (i % 28) as nat;
            let row = nearest_source(y, height, CANVAS_HEIGHT as nat);
            let column = nearest_source(x, width, CANVAS_WIDTH as nat);
            assert(row < height && column < width);
            assert(y * 28 + x == i);
            assert(row * width + column < width * height) by (nonlinear_arith)
                requires
                    row < height,
                    column < width,
            ;
            assert(canvas[(y * CANVAS_WIDTH as nat + x) as int] == pixels[(row * width
                + column) as int]);
        }
    }
}

/// The canvas of a grid of one value holds that value in all its 784
/// pixels, whatever the width and the height of the grid.
pub proof fn lemma_canvas_of_flat_grid(
    canvas: Seq<u8>,
    pixels: Seq<u8>,
    width: nat,
    height: nat,
    value: u8,
)
    requires
        is_canvas_of(canvas, pixels, width, height),
        width > 0,
        height > 0,
        pixels.len() == width * height,
        forall|j: int| 0 <= j < pixels.len() ==> #[trigger] pixels[j] == value,
    ensures
        canvas.len() == CANVAS_PIXELS,
        forall|i: int| 0 <= i < canvas.len() ==> #[trigger] canvas[i] == value,
{
    lemma_canvas_takes_grid_pixels(canvas, pixels, width, height);
}

/// A grid that is not square is stretched along each axis by itself: the
/// pixel of the canvas in row `y` and column `x` is the pixel of the grid
/// in a row that `y` and the height alone tell and in a column that `x`
/// and the width alone tell. Both lie within the grid, and neither steps
/// back as `y` or `x` grows.
pub proof fn lemma_canvas_stretches_each_axis(
    canvas: Seq<u8>,
    pixels: Seq<u8>,
    width: nat,
    height: nat,
)
    requires
        is_canvas_of(canvas, pixels, width, height),
        width > 0,
        height > 0,
        width != height,
    ensures
        canvas.len() == CANVAS_WIDTH * CANVAS_HEIGHT,
        is_nearest_sampling(
            canvas,
            pixels,
            width,
            height,
            CANVAS_WIDTH as nat,
            CANVAS_HEIGHT as nat,
        ),
{
}

/// Whether a grid of the given width can be resampled on this machine.
///
/// Resampling goes through a buffer of 16 bytes for each pixel of a grid
/// that is as wide as the source and as high as the canvas, and the size of
/// that buffer has to be below the limit of an allocation. Where addresses
/// have 64 bits every width is within that limit.
pub open spec fn resamplable(width: nat) -> bool {
    16 * width * CANVAS_HEIGHT <= isize::MAX
}

/// Where addresses have 64 bits, a grid of any width that a decoded image
/// can have is within the limit of this machine.
pub proof fn lemma_resamplable_with_64_bits(width: nat)
    requires
        usize::BITS == 64,
        width <= u32::MAX,
    ensures
        resamplable(width),
{
    assert(isize::MAX == 0x7fff_ffff_ffff_ffff);
    assert(16 * width * CANVAS_HEIGHT <= 16 * 0xffff_ffff * 28) by (nonlinear_arith)
        requires
            width <= 0xffff_ffff,
            CANVAS_HEIGHT == 28,
    ;
}

/// Tells whether a grid of the given width can be resampled on this machine.
pub fn is_resamplable(width: u32) -> (fits: bool)
    ensures
        fits == resamplable(width as nat),
{
    let per_column: u64 = 16 * (CANVAS_HEIGHT as u64);
    assert(per_column * width == 16 * width * CANVAS_HEIGHT && per_column * width <= u64::MAX)
        by (nonlinear_arith)
        requires
            per_column == 16 * CANVAS_HEIGHT,
            CANVAS_HEIGHT == 28,
            width <= u32::MAX,
    ;
    per_column * (width as u64) <= isize::MAX as u64
}

/// Resamples a luminance grid onto the canvas.
///
/// The canvas always has 28 rows of 28 pixels, each between 0 and 255. A
/// grid that already has that size is taken over as it is, and a grid
/// without pixels gives a black canvas.
pub fn normalize(image: &LumaImage) -> (canvas: GrayscaleCanvas)
    requires
        resamplable(image.spec_width() as nat),
    ensures
        is_canvas_of(canvas@, image@, image.spec_width() as nat, image.spec_height() as nat),
{
    let width: u32 = image.width();
    let height: u32 = image.height();
    let pixels: &Vec<u8> = image.pixels();
    let resized: Vec<u8> = resize_nearest(
        pixels.as_slice(),
        width,
        height,
        CANVAS_WIDTH,
        CANVAS_HEIGHT,
    );
    GrayscaleCanvas::from_pixels(resized).unwrap()
}

/// Resamples a luminance grid onto the canvas where this machine can, and
/// returns nothing where the grid is too wide for it.
pub fn try_normalize(image: &LumaImage) -> (canvas: Option<GrayscaleCanvas>)
    ensures
        canvas is Some <==> resamplable(image.spec_width() as nat),
        canvas is Some ==> is_canvas_of(
            canvas->Some_0@,
            image@,
            image.spec_width() as nat,
            image.spec_height() as nat,
        ),
{
    if is_resamplable(image.width()) {
        Some(normalize(image))
    } else {
        None
    }
}

} // verus!
