use server::error::{find_error_source, handle_json_error, AppError, JsonRejection, StatusCode};

fn syntax_error_text() -> String {
    serde_json::from_str::<serde_json::Value>("{\"name\": ").unwrap_err().to_string()
}

#[test]
fn status_codes_have_their_numbers() {
    assert_eq!(StatusCode::Success.as_u16(), 200);
    assert_eq!(StatusCode::BadRequest.as_u16(), 400);
    assert_eq!(StatusCode::InternalServerError.as_u16(), 500);
}

#[test]
fn search_gives_the_earliest_error_of_the_type() {
    let chain = vec![None, Some(7), Some(9)];
    assert_eq!(find_error_source(&chain), Some(&7));
    let chain = vec![Some(1), Some(2)];
    assert_eq!(find_error_source(&chain), Some(&1));
}

#[test]
fn search_of_a_chain_without_the_type_finds_nothing() {
    let chain: Vec<Option<u8>> = vec![None, None];
    assert_eq!(find_error_source(&chain), None);
    let empty: Vec<Option<u8>> = vec![];
    assert_eq!(find_error_source(&empty), None);
}

#[test]
fn data_error_is_answered_with_the_json_error_text() {
    let text = "missing field `email` at line 1 column 25".to_string();
    let (status, message) =
        handle_json_error(JsonRejection::JsonDataError(vec![None, Some(text.clone())]));
    assert_eq!(status, StatusCode::BadRequest);
    assert_eq!(message, text);
}

#[test]
fn syntax_error_is_answered_with_the_json_error_text() {
    let text = syntax_error_text();
    let (status, message) =
        handle_json_error(JsonRejection::JsonSyntaxError(vec![None, None, Some(text.clone())]));
    assert_eq!(status, StatusCode::BadRequest);
    assert_eq!(message, text);
}

#[test]
fn deserialization_error_without_json_error_is_unknown() {
    let (status, message) = handle_json_error(JsonRejection::JsonDataError(vec![None]));
    assert_eq!(status, StatusCode::BadRequest);
    assert_eq!(message, "Unknown error");
}

#[test]
fn missing_content_type_is_bad_request() {
    let (status, message) = handle_json_error(JsonRejection::MissingJsonContentType);
    assert_eq!(status, StatusCode::BadRequest);
    assert_eq!(message, "Missing `Content-Type: application/json` header");
}

#[test]
fn unreadable_body_is_internal_error() {
    let (status, message) = handle_json_error(JsonRejection::BytesRejection);
    assert_eq!(status, StatusCode::InternalServerError);
    assert_eq!(message, "Failed to buffer request body");
}

#[test]
fn other_rejection_is_unknown_internal_error() {
    let (status, message) = handle_json_error(JsonRejection::Other);
    assert_eq!(status, StatusCode::InternalServerError);
    assert_eq!(message, "Unknown error");
}

#[test]
fn rejection_converts_into_json_parsing_error() {
    let error = AppError::from(JsonRejection::BytesRejection);
    assert!(matches!(error, AppError::JsonParsing(JsonRejection::BytesRejection)));
}

#[test]
fn error_response_body_is_a_json_object_with_the_message() {
    let response = AppError::JsonParsing(JsonRejection::Other).into_response();
    assert_eq!(response.status, StatusCode::InternalServerError);
    assert_eq!(response.body, "{\"error\":\"Unknown error\"}");
}

#[test]
fn error_response_body_escapes_the_message() {
    let text = "expected `\"` at line 1\ncolumn 2".to_string();
    let response = AppError::JsonParsing(JsonRejection::JsonDataError(vec![Some(text)])).into_response();
    assert_eq!(response.status, StatusCode::BadRequest);
    assert_eq!(response.body, "{\"error\":\"expected `\\\"` at line 1\\ncolumn 2\"}");
    let parsed: serde_json::Value = serde_json::from_str(&response.body).unwrap();
    assert_eq!(parsed["error"], "expected `\"` at line 1\ncolumn 2");
}

#[test]
fn database_error_is_internal_error() {
    let (status, message) = AppError::Database.message();
    assert_eq!(status, StatusCode::InternalServerError);
    assert_eq!(message, "Internal server error");
    let response = AppError::Database.into_response();
    assert_eq!(response.body, "{\"error\":\"Internal server error\"}");
}

#[test]
fn error_response_body_escapes_control_characters() {
    let text = "a\u{1}b\u{8}\t\u{c}\r\\/\u{1f}é\u{7f}".to_string();
    let response = AppError::JsonParsing(JsonRejection::JsonSyntaxError(vec![Some(text.clone())]))
        .into_response();
    assert_eq!(
        response.body,
        "{\"error\":\"a\\u0001b\\b\\t\\f\\r\\\\/\\u001fé\u{7f}\"}"
    );
    let parsed: serde_json::Value = serde_json::from_str(&response.body).unwrap();
    assert_eq!(parsed["error"], text.as_str());
}
