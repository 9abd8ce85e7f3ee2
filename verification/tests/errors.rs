use rinha::controllers::count_persons::CountPersonsError;
use rinha::controllers::create_person::CreatePersonError;
use rinha::controllers::get_person::GetPersonError;
use rinha::controllers::search_persons::SearchPersonsError;
use rinha::error::{ErrorBody, HttpError, Message, ToHttpStatus};
use rinha::response::{Body, ContentType, Response, StatusCode};

#[test]
fn status_numbers() {
    assert_eq!(StatusCode::Success.as_u16(), 200);
    assert_eq!(StatusCode::Created.as_u16(), 201);
    assert_eq!(StatusCode::NotFound.as_u16(), 404);
    assert_eq!(StatusCode::UnprocessableEntity.as_u16(), 422);
    assert_eq!(StatusCode::InternalServerError.as_u16(), 500);
}

#[test]
fn only_statuses_from_400_on_are_failures() {
    assert!(!StatusCode::Success.is_failure());
    assert!(!StatusCode::Created.is_failure());
    assert!(StatusCode::NotFound.is_failure());
    assert!(StatusCode::UnprocessableEntity.is_failure());
    assert!(StatusCode::InternalServerError.is_failure());
}

#[test]
fn create_errors_map_to_422_and_500() {
    assert_eq!(CreatePersonError::NicknameAlreadyExists.status_code().as_u16(), 422);
    assert_eq!(CreatePersonError::UnknownError.status_code().as_u16(), 500);
}

#[test]
fn get_errors_map_to_404_and_500() {
    assert_eq!(GetPersonError::PersonNotFound.status_code().as_u16(), 404);
    assert_eq!(GetPersonError::UnknownError.status_code().as_u16(), 500);
}

#[test]
fn search_and_count_errors_map_to_500() {
    assert_eq!(SearchPersonsError::UnknownError.status_code().as_u16(), 500);
    assert_eq!(CountPersonsError::UnknownError.status_code().as_u16(), 500);
}

#[test]
fn every_error_has_its_fixed_text() {
    assert_eq!(
        CreatePersonError::NicknameAlreadyExists.to_string(),
        "there is already a person with that nickname"
    );
    assert_eq!(CreatePersonError::UnknownError.to_string(), "unknown error");
    assert_eq!(GetPersonError::PersonNotFound.to_string(), "person not found");
    assert_eq!(GetPersonError::UnknownError.to_string(), "unknown error");
    assert_eq!(SearchPersonsError::UnknownError.to_string(), "unknown error");
    assert_eq!(CountPersonsError::UnknownError.to_string(), "unknown error");
}

#[test]
fn http_error_keeps_what_it_was_given() {
    let error = HttpError::new(GetPersonError::PersonNotFound);
    assert_eq!(error.0, GetPersonError::PersonNotFound);
    assert_eq!(error, HttpError(GetPersonError::PersonNotFound));
}

#[test]
fn error_response_carries_status_and_message() {
    let response = HttpError::new(GetPersonError::PersonNotFound).error_response();
    assert_eq!(
        response,
        Response {
            status: StatusCode::NotFound,
            location: None,
            body: Body::Error(ErrorBody { message: "person not found".to_string() }),
        }
    );
    assert_eq!(response.body.content_type(), Some(ContentType::Json));
}

#[test]
fn error_response_of_each_operation() {
    let create = HttpError::new(CreatePersonError::NicknameAlreadyExists).error_response();
    assert_eq!(create.status.as_u16(), 422);
    let search = HttpError::new(SearchPersonsError::UnknownError).error_response();
    assert_eq!(search.status.as_u16(), 500);
    let count = HttpError::new(CountPersonsError::UnknownError).error_response();
    assert_eq!(count.status.as_u16(), 500);
    assert_eq!(count.body, Body::Error(ErrorBody { message: "unknown error".to_string() }));
}

#[test]
fn error_body_goes_out_as_an_object_with_one_field() {
    let response = HttpError::new(CreatePersonError::UnknownError).error_response();
    match response.body {
        Body::Error(body) => assert_eq!(body.to_json(), "{\"message\":\"unknown error\"}"),
        other => panic!("an error answers with an error body, not {:?}", other),
    }
}

#[test]
fn error_body_escapes_what_json_does_not_take() {
    let body = ErrorBody { message: "say \"no\"\n\\".to_string() };
    let json = body.to_json();
    assert_eq!(json, "{\"message\":\"say \\\"no\\\"\\n\\\\\"}");
    let read: serde_json::Value = serde_json::from_str(&json).expect("the body is JSON");
    let object = read.as_object().expect("the body is an object");
    assert_eq!(object.len(), 1);
    assert_eq!(object.get("message").and_then(|m| m.as_str()), Some("say \"no\"\n\\"));
}

#[test]
fn frame_puts_the_object_around_a_json_string() {
    assert_eq!(ErrorBody::frame("\"x\""), "{\"message\":\"x\"}");
}

#[test]
fn content_type_follows_the_body() {
    assert_eq!(Body::Empty.content_type(), None);
    assert_eq!(Body::Text("3".to_string()).content_type(), Some(ContentType::PlainText));
    assert_eq!(Body::Persons(Vec::new()).content_type(), Some(ContentType::Json));
}
