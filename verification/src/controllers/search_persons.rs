//! Searching persons by a term.

use crate::error::{HttpError, Message, ToHttpStatus};
use crate::person::{persons, Person};
use crate::response::{Body, BodyView, Response, ResponseView, StatusCode};
use crate::store::StoreError;
use vstd::prelude::*;
use vstd::string::*;

verus! {

/// The most persons that one search answers with.
pub const SEARCH_LIMIT: usize = 50;

/// How a search fails.
#[derive(Debug, Clone, Copy, PartialEq, Eq)]
pub enum SearchPersonsError {
    UnknownError,
}

impl ToHttpStatus for SearchPersonsError {
    open spec fn status(&self) -> StatusCode {
        StatusCode::InternalServerError
    }

    fn status_code(&self) -> (code: StatusCode) {
        StatusCode::InternalServerError
    }
}

impl Message for SearchPersonsError {
    open spec fn message(&self) -> Seq<char> {
        "unknown error"@
    }

    fn to_string(&self) -> (text: String) {
        String::from_str("unknown error")
    }
}

/// The query of a search: the term `t`, of any length.
#[derive(Debug, Clone, PartialEq, Eq)]
pub struct GetPersonsQuery {
    pub term: String,
}

/// What the store is asked to search for: the persons whose searchable text
/// holds `term`, letter case aside, and no more than `limit` of them.
#[derive(Debug, Clone, PartialEq, Eq)]
pub struct PersonSearch {
    pub term: String,
    pub limit: usize,
}

impl GetPersonsQuery {
    /// What the store is asked to search for: the term as it came, and the
    /// limit of every search.
    pub fn into_search(self) -> (search: PersonSearch)
        ensures
            search.term@ == self.term@,
            search.limit == SEARCH_LIMIT,
    {
        PersonSearch { term: self.term, limit: SEARCH_LIMIT }
    }
}

/// The first `SEARCH_LIMIT` of `rows`, or all of them where they are fewer.
pub open spec fn capped(rows: Seq<Person>) -> Seq<Person> {
    if rows.len() <= SEARCH_LIMIT {
        rows
    } else {
        rows.subrange(0, SEARCH_LIMIT as int)
    }
}

/// What the store's answer to the search becomes: the rows it found, cut at
/// the limit, or an unknown error.
pub fn run_query(outcome: Result<Vec<Person>, StoreError>) -> (answer: Result<
    Vec<Person>,
    HttpError<SearchPersonsError>,
>)
    ensures
        match outcome {
            Ok(rows) => answer is Ok && answer->Ok_0@ == capped(rows@),
            Err(_) => answer == Err::<Vec<Person>, HttpError<SearchPersonsError>>(
                HttpError(SearchPersonsError::UnknownError),
            ),
        },
{
    match outcome {
        Ok(rows) => {
            let mut rows = rows;
            rows.truncate(SEARCH_LIMIT);
            Ok(rows)
        },
        Err(_) => Err(HttpError::new(SearchPersonsError::UnknownError)),
    }
}

/// The response that carries the persons found: success, no location, and
/// the persons, in the order the store gave them, as the body.
pub open spec fn listed(rows: Seq<Person>) -> ResponseView {
    ResponseView {
        status: StatusCode::Success,
        location: None,
        body: BodyView::Persons(persons(rows)),
    }
}

/// Answers a search, given what the store said to it.
pub fn search_persons(outcome: Result<Vec<Person>, StoreError>) -> (answer: Result<
    Response,
    HttpError<SearchPersonsError>,
>)
    ensures
        match outcome {
            Ok(rows) => answer is Ok && answer->Ok_0@ == listed(capped(rows@)),
            Err(_) => answer == Err::<Response, HttpError<SearchPersonsError>>(
                HttpError(SearchPersonsError::UnknownError),
            ),
        },
{
    match run_query(outcome) {
        Ok(rows) => Ok(
            Response { status: StatusCode::Success, location: None, body: Body::Persons(rows) },
        ),
        Err(error) => Err(error),
    }
}

/// However many rows the store hands over, a search answers with no more
/// than `SEARCH_LIMIT` persons, and with all of them where they are no more
/// than that.
pub proof fn lemma_search_is_capped(rows: Seq<Person>)
    ensures
        listed(capped(rows)).body matches BodyView::Persons(found) && found.len() <= SEARCH_LIMIT,
        rows.len() <= SEARCH_LIMIT ==> listed(capped(rows)) == listed(rows),
{
}

} // verus!
