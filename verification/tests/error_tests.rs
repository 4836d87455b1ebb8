use umami_alerts::error::AppError;

#[test]
fn test_error_conversions() {
    let io_err = std::io::Error::new(std::io::ErrorKind::NotFound, "file not found");
    let app_err = AppError::io(&io_err.to_string());
    assert!(matches!(app_err, AppError::Io(_)));

    let str_err: AppError = "test error".into();
    assert!(matches!(str_err, AppError::Task(_)));

    let string_err: AppError = String::from("test error").into();
    assert!(matches!(string_err, AppError::Task(_)));
}

#[test]
fn test_error_classification() {
    let network_err = AppError::Api("network timeout".to_string());
    assert!(network_err.is_network_error());
    assert!(!network_err.is_auth_error());

    let auth_err = AppError::Api("unauthorized access".to_string());
    assert!(!auth_err.is_network_error());
    assert!(auth_err.is_auth_error());

    let retry_err = AppError::Api("rate limit exceeded".to_string());
    assert!(retry_err.is_retryable());
}

#[test]
fn test_error_display() {
    let err = AppError::config("invalid config");
    assert_eq!(err.message(), "Configuration error: invalid config");

    let err = AppError::api("API timeout");
    assert_eq!(err.message(), "API error: API timeout");
}

#[test]
fn test_smtp_error_classification() {
    let conn = AppError::Smtp("connection refused".to_string());
    assert!(conn.is_network_error());
    assert!(conn.is_retryable());

    let auth = AppError::Smtp("authentication failed".to_string());
    assert!(auth.is_auth_error());
    assert!(!auth.is_network_error());

    let transient = AppError::Smtp("busy, try again later".to_string());
    assert!(transient.is_retryable());
}

#[test]
fn test_plain_errors_not_classified() {
    let err = AppError::Template("missing field".to_string());
    assert!(!err.is_network_error());
    assert!(!err.is_auth_error());
    assert!(!err.is_retryable());
}
