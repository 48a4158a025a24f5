use onnx_ml_test::PipelineError;

#[test]
fn every_failure_has_its_own_message() {
    let failures = [
        PipelineError::FileNotFoundOrUnreadable,
        PipelineError::ImageDecodeFailure,
        PipelineError::ModelLoadFailure,
        PipelineError::InferenceExecutionFailure,
        PipelineError::TensorExtractionFailure,
        PipelineError::EmptyOutputError,
        PipelineError::NotANumberScore,
    ];
    for (index, failure) in failures.iter().enumerate() {
        assert!(!failure.message().is_empty());
        for other in &failures[index + 1..] {
            assert_ne!(failure, other);
            assert_ne!(failure.message(), other.message());
        }
    }
}

#[test]
fn messages_name_the_failure() {
    assert_eq!(
        PipelineError::FileNotFoundOrUnreadable.message(),
        "image file not found or unreadable"
    );
    assert_eq!(PipelineError::ImageDecodeFailure.message(), "image could not be decoded");
    assert_eq!(PipelineError::ModelLoadFailure.message(), "model could not be loaded");
    assert_eq!(PipelineError::InferenceExecutionFailure.message(), "model could not be run");
    assert_eq!(
        PipelineError::TensorExtractionFailure.message(),
        "model output is not a tensor of scores"
    );
    assert_eq!(PipelineError::EmptyOutputError.message(), "model returned no scores");
    assert_eq!(
        PipelineError::NotANumberScore.message(),
        "model returned a score that is not a number"
    );
}
