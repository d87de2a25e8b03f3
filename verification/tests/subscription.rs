use server::error::{AppError, JsonRejection, StatusCode};
use server::routes::subscriptions::{accept_subscription, subscribe, InsertOutcome, SubscribeUser};

fn amrit() -> SubscribeUser {
    SubscribeUser::new("amrit@example.com".to_string(), "Amrit Ghimire".to_string())
}

#[test]
fn user_keeps_email_and_name() {
    let user = amrit();
    assert_eq!(user.email(), "amrit@example.com");
    assert_eq!(user.name(), "Amrit Ghimire");
}

#[test]
fn valid_body_is_accepted() {
    let accepted = accept_subscription(Ok(amrit())).unwrap();
    assert_eq!(accepted.email(), "amrit@example.com");
}

#[test]
fn stored_subscription_returns_the_user() {
    let response = subscribe(amrit(), InsertOutcome::Inserted).unwrap();
    assert_eq!(response.email(), "amrit@example.com");
    assert_eq!(response.name(), "Amrit Ghimire");
}

#[test]
fn subscribing_twice_succeeds_both_times() {
    let first = subscribe(amrit(), InsertOutcome::Inserted).unwrap();
    let second = subscribe(
        amrit(),
        InsertOutcome::DatabaseError { constraint: Some("subscriptions_email_key".to_string()) },
    )
    .unwrap();
    assert_eq!(first.email(), second.email());
    assert_eq!(first.name(), second.name());
}

#[test]
fn other_constraint_is_an_internal_error() {
    let response = subscribe(
        amrit(),
        InsertOutcome::DatabaseError { constraint: Some("subscriptions_pkey".to_string()) },
    );
    assert!(matches!(response, Err(AppError::Database)));
    let response = subscribe(amrit(), InsertOutcome::DatabaseError { constraint: None });
    assert!(matches!(response, Err(AppError::Database)));
    let response = subscribe(amrit(), InsertOutcome::OtherError);
    let error = match response {
        Err(error) => error,
        Ok(_) => panic!("a failed statement must be an error"),
    };
    assert_eq!(error.into_response().status, StatusCode::InternalServerError);
}

#[test]
fn missing_form_data_is_answered_with_400() {
    let cases = [
        ("{\"name\": \"Amrit Ghimire\"}", "missing the email"),
        ("{\"email\": \"amrit@example.com\"}", "missing the name"),
        ("{}", "missing both name and email"),
    ];
    for (body, what) in cases {
        let value: serde_json::Value = serde_json::from_str(body).unwrap();
        let missing = if value.get("email").is_none() { "email" } else { "name" };
        let text = format!("missing field `{}`", missing);
        let rejection = JsonRejection::JsonDataError(vec![None, Some(text.clone())]);
        let error = match accept_subscription(Err(rejection)) {
            Err(error) => error,
            Ok(_) => panic!("a refused body must be an error"),
        };
        let response = error.into_response();
        assert_eq!(
            response.status,
            StatusCode::BadRequest,
            "The API did not fail with 400 Bad Request when the payload was {}.",
            what
        );
        let parsed: serde_json::Value = serde_json::from_str(&response.body).unwrap();
        assert_eq!(parsed["error"], text);
    }
}

#[test]
fn malformed_body_is_answered_with_400() {
    let text = serde_json::from_str::<serde_json::Value>("{\"name\": ").unwrap_err().to_string();
    let error = match accept_subscription(Err(JsonRejection::JsonSyntaxError(vec![Some(text)]))) {
        Err(error) => error,
        Ok(_) => panic!("a malformed body must be an error"),
    };
    assert_eq!(error.into_response().status.as_u16(), 400);
}

#[test]
fn body_without_json_content_type_is_answered_with_400() {
    let error = match accept_subscription(Err(JsonRejection::MissingJsonContentType)) {
        Err(error) => error,
        Ok(_) => panic!("a refused body must be an error"),
    };
    let response = error.into_response();
    assert_eq!(response.status, StatusCode::BadRequest);
    assert_eq!(
        response.body,
        "{\"error\":\"Missing `Content-Type: application/json` header\"}"
    );
}
