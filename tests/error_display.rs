use crawler::error::{Database, Error, ErrorType};

#[test]
fn test_error_display() {
    let error = Error::new(
        ErrorType::Unspecified,
        None,
        Some("An unspecified error occurred.".to_string()),
    );
    assert_eq!(error.to_string(), "An unspecified error occurred.");
}

#[test]
fn test_database_error_display() {
    let db_error = Error::new(
        ErrorType::Database(Database::MissingIndex),
        None,
        Some("Index has not been selected.".to_string()),
    );
    assert_eq!(db_error.to_string(), "Index has not been selected.");
}

#[test]
fn test_error_with_cause() {
    let cause = std::io::Error::new(std::io::ErrorKind::Other, "Root cause");
    let error = Error::new(
        ErrorType::Unspecified,
        Some(cause.to_string()),
        Some("An unspecified error occurred.".to_string()),
    );
    assert_eq!(error.to_string(), "An unspecified error occurred.");
}

#[test]
fn pool_error_message() {
    let error = Error::new(ErrorType::Database(Database::Pool), None, None);
    assert_eq!(error.to_string(), "Failed to get pool.");
    assert_eq!(ErrorType::Database(Database::Pool).to_string(), "Failed to get pool.");
    assert_eq!(Database::MissingIndex.to_string(), "Index has not been selected.");
}

#[test]
fn error_keeps_cause_and_context() {
    let error = Error::new(ErrorType::Unspecified, Some("io".to_string()), Some("ctx".to_string()));
    assert_eq!(error.cause.as_deref(), Some("io"));
    assert_eq!(error.context.as_deref(), Some("ctx"));
    assert_eq!(error.error_type, ErrorType::Unspecified);
}
