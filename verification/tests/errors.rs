use figex::error::{FigexError, PipelineError, RuntimeError};

#[test]
fn figex_error_exit_codes_match_the_spec() {
    let cases = [
        (FigexError::ConnectionFailed(RuntimeError::ProbeFailed), 10),
        (FigexError::TargetNotFound(RuntimeError::TargetNotFound), 11),
        (FigexError::SnapshotFailed(RuntimeError::SnapshotFailed), 12),
        (FigexError::FrameNotFound, 20),
        (
            FigexError::DataInconsistency(PipelineError::FeatureExtractionFailed),
            21,
        ),
        (
            FigexError::NormalizeFailed(PipelineError::NormalizeFailed),
            30,
        ),
        (
            FigexError::ClassifyFailed(PipelineError::ClassificationFailed),
            31,
        ),
        (FigexError::WriteFailed(PipelineError::WriteFailed), 40),
        (FigexError::ConfigInvalid("bad config".to_string()), 50),
    ];

    for (error, expected_code) in cases {
        assert_eq!(error.exit_code(), expected_code);
    }
}

#[test]
fn figex_error_messages_follow_the_error_and_its_cause() {
    let error = FigexError::NormalizeFailed(PipelineError::NormalizeFailed);
    assert_eq!(error.message(), "normalize error: normalize failed");
    assert_eq!(error.report(), "normalize error: normalize failed: normalize failed");
    assert_eq!(FigexError::FrameNotFound.report(), "frame not found");
    assert_eq!(
        FigexError::ConfigInvalid("bad config".to_string()).report(),
        "config error: bad config"
    );
    assert_eq!(
        FigexError::ConnectionFailed(RuntimeError::Timeout).report(),
        "connection error: timed out: timed out"
    );
}

#[test]
fn runtime_error_messages_and_debug_names() {
    assert_eq!(RuntimeError::AttachFailed.message(), "attach failed");
    assert_eq!(RuntimeError::AttachFailed.debug_name(), "AttachFailed");
    assert_eq!(RuntimeError::TargetNotFound.message(), "target not found");
    let evaluate = RuntimeError::EvaluateFailed("boom \"x\"".to_string());
    assert_eq!(evaluate.message(), "evaluate failed: boom \"x\"");
    assert_eq!(evaluate.debug_name(), format!("{:?}", evaluate));
    assert_eq!(PipelineError::WriteFailed.message(), "write failed");
}

#[test]
fn attach_errors_map_to_target_not_found_or_connection_failed() {
    assert_eq!(
        FigexError::from_attach_error(RuntimeError::TargetNotFound).exit_code(),
        11
    );
    assert_eq!(
        FigexError::from_attach_error(RuntimeError::AttachFailed).exit_code(),
        10
    );
    assert_eq!(FigexError::from_attach_error(RuntimeError::Timeout).exit_code(), 10);
}
