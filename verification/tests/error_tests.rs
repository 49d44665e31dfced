use report_gen::errors::{AppError, AppResult};

#[test]
fn error_test_validation_error() {
    let error = AppError::Validation("field is required".to_string());
    assert_eq!(error.message(), "Validation error: field is required");
}

#[test]
fn error_test_not_found_error() {
    let error = AppError::NotFound("Report".to_string());
    assert_eq!(error.message(), "Not found: Report");
}

#[test]
fn test_llm_error() {
    let error = AppError::Llm("provider timeout".to_string());
    assert_eq!(error.message(), "LLM error: provider timeout");
}

#[test]
fn test_pipeline_error() {
    let error = AppError::Pipeline("stage failed".to_string());
    assert_eq!(error.message(), "Pipeline error: stage failed");
}

#[test]
fn error_test_internal_error() {
    let error = AppError::Internal("unexpected".to_string());
    assert_eq!(error.message(), "Internal error: unexpected");
}

#[test]
fn error_test_error_status_codes() {
    let test_cases = vec![
        (AppError::Validation("test".to_string()), 400),
        (AppError::NotFound("test".to_string()), 404),
        (AppError::Database("test".to_string()), 500),
        (AppError::Llm("test".to_string()), 500),
        (AppError::Pipeline("test".to_string()), 500),
        (AppError::Internal("test".to_string()), 500),
    ];

    for (error, expected_status) in test_cases {
        assert_eq!(error.status_code(), expected_status);
    }
}

#[test]
fn test_user_message_never_echoes_internal_causes() {
    assert_eq!(
        AppError::Validation("bad input".to_string()).user_message(),
        "bad input"
    );
    assert_eq!(
        AppError::NotFound("Report x".to_string()).user_message(),
        "Report x"
    );
    assert_eq!(
        AppError::Llm("provider secret detail".to_string()).user_message(),
        "Internal server error"
    );
    assert_eq!(
        AppError::Database("connection string".to_string()).user_message(),
        "Internal server error"
    );
    assert_eq!(
        AppError::Pipeline("stage detail".to_string()).user_message(),
        "Internal server error"
    );
}

#[test]
fn error_test_app_result_ok() {
    fn returns_ok() -> AppResult<i32> {
        Ok(42)
    }
    let result = returns_ok();
    assert!(result.is_ok());
    assert_eq!(result.unwrap(), 42);
}

#[test]
fn error_test_app_result_err() {
    fn returns_err() -> AppResult<i32> {
        Err(AppError::NotFound("test".to_string()))
    }
    let result = returns_err();
    assert!(result.is_err());
}
