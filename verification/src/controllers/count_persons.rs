//! Counting the persons on record.

use crate::error::{HttpError, Message, ToHttpStatus};
use crate::response::{Body, BodyView, Response, ResponseView, StatusCode};
use crate::store::StoreError;
use crate::text::{signed_decimal, signed_decimal_string};
use vstd::prelude::*;
use vstd::string::*;

verus! {

/// How a count fails.
#[derive(Debug, Clone, Copy, PartialEq, Eq)]
pub enum CountPersonsError {
    UnknownError,
}

impl ToHttpStatus for CountPersonsError {
    open spec fn status(&self) -> StatusCode {
        StatusCode::InternalServerError
    }

    fn status_code(&self) -> (code: StatusCode) {
        StatusCode::InternalServerError
    }
}

impl Message for CountPersonsError {
    open spec fn message(&self) -> Seq<char> {
        "unknown error"@
    }

    fn to_string(&self) -> (text: String) {
        String::from_str("unknown error")
    }
}

/// What the store answers when it has counted the persons.
#[derive(Debug, Clone, Copy, PartialEq, Eq)]
pub struct CountPersonsDbResponse {
    pub count: i64,
}

/// The response that carries a count: success, no location, and the count
/// in decimal as plain text.
pub open spec fn counted(count: i64) -> ResponseView {
    ResponseView {
        status: StatusCode::Success,
        location: None,
        body: BodyView::Text(signed_decimal(count as int)),
    }
}

/// Answers a request for the number of persons, given what the store said
/// to the count.
pub fn count_persons(outcome: Result<CountPersonsDbResponse, StoreError>) -> (answer: Result<
    Response,
    HttpError<CountPersonsError>,
>)
    ensures
        match outcome {
            Ok(row) => answer is Ok && answer->Ok_0@ == counted(row.count),
            Err(_) => answer == Err::<Response, HttpError<CountPersonsError>>(
                HttpError(CountPersonsError::UnknownError),
            ),
        },
{
    match outcome {
        Ok(row) => Ok(
            Response {
                status: StatusCode::Success,
                location: None,
                body: Body::Text(signed_decimal_string(row.count)),
            },
        ),
        Err(_) => Err(HttpError::new(CountPersonsError::UnknownError)),
    }
}

} // verus!
