use image_converter::error::{reason_phrase, AppError, ErrorResponse};

fn response(status: u16, kind: &str, message: &str) -> ErrorResponse {
    ErrorResponse { status, kind: kind.to_string(), message: message.to_string() }
}

#[test]
fn not_found_is_answered_with_404() {
    let e = AppError::NotFound;
    assert_eq!(e.status_code(), 404);
    assert_eq!(e.client_message(), "Image not found");
    assert_eq!(e.into_response(), response(404, "Not Found", "Image not found"));
}

#[test]
fn validation_error_passes_its_message_on() {
    let e = AppError::ValidationError("Requested width (5000) exceeds the limit of 4000".to_string());
    assert_eq!(e.status_code(), 400);
    assert_eq!(
        e.into_response(),
        response(400, "Bad Request", "Requested width (5000) exceeds the limit of 4000")
    );
}

#[test]
fn server_busy_is_answered_with_503() {
    assert_eq!(
        AppError::ServerBusy.into_response(),
        response(503, "Service Unavailable", "Server is busy (Semaphore timeout)")
    );
}

#[test]
fn server_errors_hide_their_cause() {
    assert_eq!(
        AppError::IoError("permission denied: /srv/images/cat.png".to_string()).into_response(),
        response(500, "Internal Server Error", "Storage error")
    );
    assert_eq!(
        AppError::VipsError("vips error: bad header".to_string()).into_response(),
        response(500, "Internal Server Error", "Image Processing Failed")
    );
    assert_eq!(
        AppError::UnexpectedError("task 7 panicked".to_string()).into_response(),
        response(500, "Internal Server Error", "Internal Server Error")
    );
}

#[test]
fn client_errors_are_the_first_two_variants() {
    assert!(AppError::NotFound.is_client_error());
    assert!(AppError::ValidationError(String::new()).is_client_error());
    assert!(!AppError::ServerBusy.is_client_error());
    assert!(!AppError::IoError(String::new()).is_client_error());
    assert!(!AppError::VipsError(String::new()).is_client_error());
    assert!(!AppError::UnexpectedError(String::new()).is_client_error());
}

#[test]
fn descriptions_carry_the_cause() {
    assert_eq!(AppError::NotFound.describe(), "The requested image does not exist");
    assert_eq!(
        AppError::ValidationError("too wide".to_string()).describe(),
        "Error de validación: too wide"
    );
    assert_eq!(AppError::ServerBusy.describe(), "The server is under to much load.");
    assert_eq!(
        AppError::IoError("disk gone".to_string()).describe(),
        "Reading from disk failed: disk gone"
    );
    assert_eq!(
        AppError::VipsError("bad header".to_string()).describe(),
        "Error processing image: bad header"
    );
    assert_eq!(
        AppError::UnexpectedError("task failed".to_string()).describe(),
        "Unexpected Error: task failed"
    );
}

#[test]
fn reason_phrases_come_from_the_status_table() {
    assert_eq!(reason_phrase(200), "OK");
    assert_eq!(reason_phrase(304), "Not Modified");
    assert_eq!(reason_phrase(400), "Bad Request");
    assert_eq!(reason_phrase(404), "Not Found");
    assert_eq!(reason_phrase(418), "I'm a teapot");
    assert_eq!(reason_phrase(500), "Internal Server Error");
    assert_eq!(reason_phrase(503), "Service Unavailable");
}

#[test]
fn reason_phrase_is_unknown_where_the_table_has_none() {
    assert_eq!(reason_phrase(0), "Unknown");
    assert_eq!(reason_phrase(99), "Unknown");
    assert_eq!(reason_phrase(299), "Unknown");
    assert_eq!(reason_phrase(999), "Unknown");
    assert_eq!(reason_phrase(1000), "Unknown");
    assert_eq!(reason_phrase(u16::MAX), "Unknown");
}
