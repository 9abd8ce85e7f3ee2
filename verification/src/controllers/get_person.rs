//! Fetching one person by its identifier.

use crate::error::{HttpError, Message, ToHttpStatus};
use crate::person::Person;
use crate::response::{Body, BodyView, Response, ResponseView, StatusCode};
use crate::store::StoreError;
use vstd::prelude::*;
use vstd::string::*;

verus! {

/// How fetching a person fails.
#[derive(Debug, Clone, Copy, PartialEq, Eq)]
pub enum GetPersonError {
    PersonNotFound,
    UnknownError,
}

impl ToHttpStatus for GetPersonError {
    open spec fn status(&self) -> StatusCode {
        match self {
            GetPersonError::PersonNotFound => StatusCode::NotFound,
            GetPersonError::UnknownError => StatusCode::InternalServerError,
        }
    }

    fn status_code(&self) -> (code: StatusCode) {
        match self {
            GetPersonError::PersonNotFound => StatusCode::NotFound,
            GetPersonError::UnknownError => StatusCode::InternalServerError,
        }
    }
}

impl Message for GetPersonError {
    open spec fn message(&self) -> Seq<char> {
        match self {
            GetPersonError::PersonNotFound => "person not found"@,
            GetPersonError::UnknownError => "unknown error"@,
        }
    }

    fn to_string(&self) -> (text: String) {
        match self {
            GetPersonError::PersonNotFound => String::from_str("person not found"),
            GetPersonError::UnknownError => String::from_str("unknown error"),
        }
    }
}

/// What the store's answer to the lookup becomes: the person, a person that
/// is not there where the store found none, and an unknown error where the
/// store failed.
pub open spec fn looked_up(outcome: Result<Option<Person>, StoreError>) -> Result<
    Person,
    HttpError<GetPersonError>,
> {
    match outcome {
        Ok(Some(person)) => Ok(person),
        Ok(None) => Err(HttpError(GetPersonError::PersonNotFound)),
        Err(_) => Err(HttpError(GetPersonError::UnknownError)),
    }
}

/// A lookup fails with 404 where the store answered and found nobody, with
/// 500 where the store failed, and not at all where the store found someone.
pub proof fn lemma_lookup_status(outcome: Result<Option<Person>, StoreError>)
    ensures
        outcome matches Ok(Some(_)) ==> looked_up(outcome) is Ok,
        outcome matches Ok(None) ==> looked_up(outcome) is Err && looked_up(
            outcome,
        )->Err_0.0.status().number() == 404,
        outcome is Err ==> looked_up(outcome) is Err && looked_up(
            outcome,
        )->Err_0.0.status().number() == 500,
{
}

/// What the store's answer to the lookup becomes.
pub fn run_query(outcome: Result<Option<Person>, StoreError>) -> (answer: Result<
    Person,
    HttpError<GetPersonError>,
>)
    ensures
        answer == looked_up(outcome),
{
    match outcome {
        Ok(Some(person)) => Ok(person),
        Ok(None) => Err(HttpError::new(GetPersonError::PersonNotFound)),
        Err(_) => Err(HttpError::new(GetPersonError::UnknownError)),
    }
}

/// The response that carries a person: success, no location, and the person
/// as the body.
pub open spec fn found(person: Person) -> ResponseView {
    ResponseView { status: StatusCode::Success, location: None, body: BodyView::Person(person@) }
}

/// Answers a request for one person, given what the store said to the
/// lookup.
pub fn get_person(outcome: Result<Option<Person>, StoreError>) -> (answer: Result<
    Response,
    HttpError<GetPersonError>,
>)
    ensures
        match looked_up(outcome) {
            Ok(person) => answer is Ok && answer->Ok_0@ == found(person),
            Err(error) => answer == Err::<Response, HttpError<GetPersonError>>(error),
        },
{
    match run_query(outcome) {
        Ok(person) => Ok(
            Response { status: StatusCode::Success, location: None, body: Body::Person(person) },
        ),
        Err(error) => Err(error),
    }
}

} // verus!
