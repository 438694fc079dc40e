use axum::http::StatusCode;
use user_service::types::{
    AppError, Body, STATUS_CREATED, STATUS_INTERNAL_SERVER_ERROR, STATUS_NOT_FOUND,
    STATUS_NO_CONTENT, STATUS_OK,
};
use user_service::AppResult;

fn message_of(body: Body) -> String {
    match body {
        Body::Error(response) => response.message,
        other => panic!("not an error body: {:?}", other),
    }
}

#[test]
fn status_numbers() {
    assert_eq!(STATUS_OK, 200);
    assert_eq!(STATUS_CREATED, 201);
    assert_eq!(STATUS_NO_CONTENT, 204);
    assert_eq!(STATUS_NOT_FOUND, 404);
    assert_eq!(STATUS_INTERNAL_SERVER_ERROR, 500);
}

#[test]
fn status_numbers_are_those_of_the_web_framework() {
    assert_eq!(StatusCode::from_u16(STATUS_OK).unwrap(), StatusCode::OK);
    assert_eq!(StatusCode::from_u16(STATUS_CREATED).unwrap(), StatusCode::CREATED);
    assert_eq!(StatusCode::from_u16(STATUS_NO_CONTENT).unwrap(), StatusCode::NO_CONTENT);
    assert_eq!(StatusCode::from_u16(STATUS_NOT_FOUND).unwrap(), StatusCode::NOT_FOUND);
    assert_eq!(
        StatusCode::from_u16(STATUS_INTERNAL_SERVER_ERROR).unwrap(),
        StatusCode::INTERNAL_SERVER_ERROR
    );
}

#[test]
fn string_makes_a_general_error() {
    match AppError::string("cannot lock for appender") {
        AppError::General(text) => assert_eq!(text, "cannot lock for appender"),
        other => panic!("unexpected error: {:?}", other),
    }
}

#[test]
fn string_keeps_an_empty_text() {
    match AppError::string("") {
        AppError::General(text) => assert_eq!(text, ""),
        other => panic!("unexpected error: {:?}", other),
    }
}

#[test]
fn map_renders_the_error_it_is_given() {
    let parse_error = "12x".parse::<u32>().unwrap_err();
    let expected = parse_error.to_string();
    match AppError::map(parse_error) {
        AppError::General(text) => {
            assert_eq!(text, expected);
            assert_eq!(text, "invalid digit found in string");
        }
        other => panic!("unexpected error: {:?}", other),
    }
}

#[test]
fn text_of_a_general_error_is_what_it_carries() {
    assert_eq!(AppError::string("pool timed out").text(), "pool timed out");
}

#[test]
fn text_of_a_missing_record() {
    assert_eq!(AppError::NotFound.text(), "Not found");
}

#[test]
fn a_missing_record_is_reported_with_an_empty_message() {
    let reply = AppError::NotFound.into_response();
    assert_eq!(reply.status, 404);
    assert_eq!(message_of(reply.body), "");
}

#[test]
fn a_general_error_is_reported_without_its_text() {
    let reply = AppError::string("relation \"users\" does not exist").into_response();
    assert_eq!(reply.status, 500);
    assert_eq!(message_of(reply.body), "Error");
}

#[test]
fn a_general_error_with_an_empty_text_is_still_an_error() {
    let reply = AppError::string("").into_response();
    assert_eq!(reply.status, 500);
    assert_eq!(message_of(reply.body), "Error");
}

#[test]
fn results_default_to_the_service_error() {
    let missing: AppResult<u8> = Err(AppError::NotFound);
    assert!(matches!(missing, Err(AppError::NotFound)));
    let other: AppResult<u8, String> = Err("plain".to_string());
    assert_eq!(other, Err("plain".to_string()));
}
