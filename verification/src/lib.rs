//! Digit classification pipeline around a pretrained model.
//!
//! The pipeline has three steps. The image loader decodes an encoded image
//! into a luminance grid, the normalizer resamples that grid onto a fixed
//! 28 x 28 canvas, and the decision extractor picks the class with the
//! highest score from what the inference engine returned. Running the
//! engine itself is left to the caller.

pub mod decision;
pub mod error;
pub mod grid;
pub mod loader;
pub mod normalizer;
pub mod pipeline;
pub mod score;

pub use decision::guess;
pub use error::PipelineError;
pub use grid::{GrayscaleCanvas, LumaImage};
pub use loader::load_image;
pub use normalizer::{normalize, try_normalize};
pub use pipeline::preprocess_image;
pub use score::Score;
