//! The failures of the pipeline.

use vstd::prelude::*;

verus! {

/// Every way in which a run of the pipeline can fail. None of them is
/// recovered from: the first failure ends the run.
#[derive(Clone, Copy, Debug, PartialEq, Eq, Structural)]
pub enum PipelineError {
    /// The image file is missing or cannot be read.
    FileNotFoundOrUnreadable,
    /// The bytes are not a well-formed image of a supported format.
    ImageDecodeFailure,
    /// The model artifact could not be loaded.
    ModelLoadFailure,
    /// The inference engine failed while running the model.
    InferenceExecutionFailure,
    /// The engine's output could not be read as a tensor of scores.
    TensorExtractionFailure,
    /// The engine returned no scores at all.
    EmptyOutputError,
    /// A score is not a number, so the scores cannot be ordered.
    NotANumberScore,
}

impl PipelineError {
    /// The diagnostic text of each failure.
    pub open spec fn message_text(self) -> Seq<char> {
        match self {
            PipelineError::FileNotFoundOrUnreadable => "image file not found or unreadable"@,
            PipelineError::ImageDecodeFailure => "image could not be decoded"@,
            PipelineError::ModelLoadFailure => "model could not be loaded"@,
            PipelineError::InferenceExecutionFailure => "model could not be run"@,
            PipelineError::TensorExtractionFailure => "model output is not a tensor of scores"@,
            PipelineError::EmptyOutputError => "model returned no scores"@,
            PipelineError::NotANumberScore => "model returned a score that is not a number"@,
        }
    }

    /// The diagnostic text shown to the user for this failure.
    pub fn message(&self) -> (text: String)
        ensures
            text@ == self.message_text(),
    {
        broadcast use vstd::string::to_string_from_display_ensures_for_str;
        match self {
            PipelineError::FileNotFoundOrUnreadable => "image file not found or unreadable".to_string(),
            PipelineError::ImageDecodeFailure => "image could not be decoded".to_string(),
            PipelineError::ModelLoadFailure => "model could not be loaded".to_string(),
            PipelineError::InferenceExecutionFailure => "model could not be run".to_string(),
            PipelineError::TensorExtractionFailure => "model output is not a tensor of scores".to_string(),
            PipelineError::EmptyOutputError => "model returned no scores".to_string(),
            PipelineError::NotANumberScore => "model returned a score that is not a number".to_string(),
        }
    }
}

} // verus!
