//! The image loader: from the bytes of an encoded image to a luminance grid.
//!
//! Decoding is the work of the `image` crate. Nothing is proved of it here:
//! the three functions that call it are trusted, and what they return is
//! known by name only. The contracts of the loader say how those results
//! are put together.

use vstd::prelude::*;
use crate::error::PipelineError;
use crate::grid::LumaImage;

verus! {

/// A decoded image of the `image` crate, in its own size and colour depth.
/// Nothing is known of what it holds.
#[verifier::external_type_specification]
#[verifier::external_body]
pub struct ExDynamicImage(image::DynamicImage);

/// The error of the `image` crate. Nothing is known of what it holds.
#[verifier::external_type_specification]
#[verifier::external_body]
pub struct ExImageError(image::ImageError);

/// An image format that the `image` crate knows by name.
#[verifier::external_type_specification]
#[verifier::external_body]
pub struct ExImageFormat(image::ImageFormat);

/// The format that `image::ImageFormat::from_extension` tells from a file
/// extension, where it knows the extension.
pub uninterp spec fn format_of(extension: Seq<char>) -> Option<image::ImageFormat>;

/// The image that `image::load_from_memory_with_format` decodes from the
/// bytes of a file of the given format, where it decodes one.
pub uninterp spec fn decode_of(bytes: Seq<u8>, format: image::ImageFormat) -> Option<
    image::DynamicImage,
>;

/// The width, the height and the pixels, row after row, of the copy in
/// eight-bit luminance that `image::DynamicImage::to_luma8` makes of a
/// decoded image.
pub uninterp spec fn luma_of(decoded: image::DynamicImage) -> (nat, nat, Seq<u8>);

/// The luminance grid that the bytes of a file with the given extension
/// hold, as its width, its height and its pixels: the extension tells the
/// format, the bytes are decoded as an image of that format, and the image
/// is turned into luminance. There is none where the extension is not
/// known or the bytes do not decode.
pub open spec fn loaded_grid(bytes: Seq<u8>, extension: Seq<char>) -> Option<(nat, nat, Seq<u8>)> {
    match format_of(extension) {
        Some(format) => match decode_of(bytes, format) {
            Some(decoded) => Some(luma_of(decoded)),
            None => None,
        },
        None => None,
    }
}

/// Calls `image::ImageFormat::from_extension`, which looks the extension
/// up, without regard to case, in a fixed table. The result is named.
#[verifier::external_body]
fn format_from_extension(extension: &str) -> (format: Option<image::ImageFormat>)
    ensures
        format == format_of(extension@),
{
    image::ImageFormat::from_extension(extension)
}

/// Calls `image::load_from_memory_with_format`, which decodes the bytes as
/// an image of the given format, within its default limits. The image is
/// named; of the error nothing is claimed.
#[verifier::external_body]
fn decode_with_format(bytes: &[u8], format: image::ImageFormat) -> (decoded: Result<
    image::DynamicImage,
    image::ImageError,
>)
    ensures
        decoded is Ok <==> decode_of(bytes@, format) is Some,
        decoded is Ok ==> decode_of(bytes@, format) == Some(decoded->Ok_0),
{
    image::load_from_memory_with_format(bytes, format)
}

/// Calls `image::DynamicImage::to_luma8`, which returns a copy of the image
/// in eight-bit luminance, and hands out its width, its height and its
/// pixels, row after row. The three are named, and there is one pixel for
/// each place of the grid.
#[verifier::external_body]
fn luma_parts(decoded: &image::DynamicImage) -> (parts: (u32, u32, Vec<u8>))
    ensures
        luma_of(*decoded) == (parts.0 as nat, parts.1 as nat, parts.2@),
        parts.2@.len() == parts.0 * parts.1,
{
    let luma = decoded.to_luma8();
    (luma.width(), luma.height(), luma.pixels().map(|pixel| pixel[0]).collect())
}

/// The luminance grid of a decoded image, and the failure to decode as an
/// [`PipelineError::ImageDecodeFailure`].
pub fn luma_of_decoded(decoded: Result<image::DynamicImage, image::ImageError>) -> (loaded: Result<
    LumaImage,
    PipelineError,
>)
    ensures
        loaded is Ok <==> decoded is Ok,
        loaded is Err ==> loaded->Err_0 == PipelineError::ImageDecodeFailure,
        loaded is Ok ==> {
            &&& luma_of(decoded->Ok_0) == (
                loaded->Ok_0.spec_width() as nat,
                loaded->Ok_0.spec_height() as nat,
                loaded->Ok_0@,
            )
            &&& loaded->Ok_0@.len() == loaded->Ok_0.spec_width() * loaded->Ok_0.spec_height()
        },
{
    match decoded {
        Ok(image) => {
            let (width, height, pixels) = luma_parts(&image);
            Ok(LumaImage::new(width, height, pixels).unwrap())
        },
        Err(_) => Err(PipelineError::ImageDecodeFailure),
    }
}

/// Decodes the bytes of an image file into a luminance grid.
///
/// The format is told from `extension`, the extension of the file that the
/// bytes were read from, without its dot. The call succeeds exactly where
/// the extension names a format and the bytes are a well-formed image of
/// that format, and the grid is then the luminance of that image. Anything
/// else is an [`PipelineError::ImageDecodeFailure`].
pub fn load_image(bytes: &[u8], extension: &str) -> (loaded: Result<LumaImage, PipelineError>)
    ensures
        loaded is Ok <==> loaded_grid(bytes@, extension@) is Some,
        loaded is Err ==> loaded->Err_0 == PipelineError::ImageDecodeFailure,
        loaded is Ok ==> {
            &&& loaded_grid(bytes@, extension@) == Some(
                (
                    loaded->Ok_0.spec_width() as nat,
                    loaded->Ok_0.spec_height() as nat,
                    loaded->Ok_0@,
                ),
            )
            &&& loaded->Ok_0@.len() == loaded->Ok_0.spec_width() * loaded->Ok_0.spec_height()
        },
{
    match format_from_extension(extension) {
        Some(format) => luma_of_decoded(decode_with_format(bytes, format)),
        None => Err(PipelineError::ImageDecodeFailure),
    }
}

} // verus!
