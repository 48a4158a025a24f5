//! The first step of the pipeline as one call: from the bytes of an image
//! file to the canvas.

use vstd::prelude::*;
use crate::error::PipelineError;
use crate::grid::GrayscaleCanvas;
use crate::loader::{load_image, loaded_grid};
use crate::normalizer::{is_canvas_of, resamplable, try_normalize};

verus! {

/// Decodes the bytes of an image file and resamples the image onto the
/// canvas of 28 rows and 28 columns.
///
/// The format is told from `extension`, the extension of the file that the
/// bytes were read from, without its dot. The call succeeds exactly where
/// the bytes hold an image of that format which this machine can resample,
/// and the canvas is then the canvas of the luminance of that image.
/// Anything else is an [`PipelineError::ImageDecodeFailure`].
pub fn preprocess_image(bytes: &[u8], extension: &str) -> (canvas: Result<
    GrayscaleCanvas,
    PipelineError,
>)
    ensures
        canvas is Ok <==> loaded_grid(bytes@, extension@) is Some && resamplable(
            loaded_grid(bytes@, extension@)->Some_0.0,
        ),
        canvas is Err ==> canvas->Err_0 == PipelineError::ImageDecodeFailure,
        canvas is Ok ==> is_canvas_of(
            canvas->Ok_0@,
            loaded_grid(bytes@, extension@)->Some_0.2,
            loaded_grid(bytes@, extension@)->Some_0.0,
            loaded_grid(bytes@, extension@)->Some_0.1,
        ),
{
    match load_image(bytes, extension) {
        Ok(image) => match try_normalize(&image) {
            Some(canvas) => Ok(canvas),
            None => Err(PipelineError::ImageDecodeFailure),
        },
        Err(failure) => Err(failure),
    }
}

} // verus!
