//! What a handler answers, as plain values for the transport to send.

use crate::error::ErrorBody;
use crate::person::{persons, Person, PersonView};
use vstd::prelude::*;

verus! {

/// The statuses this service answers with.
#[derive(Debug, Clone, Copy, PartialEq, Eq)]
pub enum StatusCode {
    Success,
    Created,
    NotFound,
    UnprocessableEntity,
    InternalServerError,
}

impl StatusCode {
    /// The number that goes on the wire.
    pub open spec fn number(self) -> int {
        match self {
            StatusCode::Success => 200,
            StatusCode::Created => 201,
            StatusCode::NotFound => 404,
            StatusCode::UnprocessableEntity => 422,
            StatusCode::InternalServerError => 500,
        }
    }

    /// The number that goes on the wire.
    pub fn as_u16(&self) -> (number: u16)
        ensures
            number == self.number(),
    {
        match self {
            StatusCode::Success => 200,
            StatusCode::Created => 201,
            StatusCode::NotFound => 404,
            StatusCode::UnprocessableEntity => 422,
            StatusCode::InternalServerError => 500,
        }
    }

    /// Whether the status reports a failure.
    pub fn is_failure(&self) -> (failed: bool)
        ensures
            failed == (self.number() >= 400),
    {
        match self {
            StatusCode::Success => false,
            StatusCode::Created => false,
            _ => true,
        }
    }
}

/// How the body of a response is to be read.
#[derive(Debug, Clone, Copy, PartialEq, Eq)]
pub enum ContentType {
    PlainText,
    Json,
}

/// The body of a response. All but `Empty` and `Text` go out as JSON.
#[derive(Debug, Clone, PartialEq, Eq)]
pub enum Body {
    Empty,
    Text(String),
    Error(ErrorBody),
    Person(Person),
    Persons(Vec<Person>),
}

/// What a [`Body`] holds, as mathematical values.
pub ghost enum BodyView {
    Empty,
    Text(Seq<char>),
    Error(Seq<char>),
    Person(PersonView),
    Persons(Seq<PersonView>),
}

impl View for Body {
    type V = BodyView;

    open spec fn view(&self) -> BodyView {
        match self {
            Body::Empty => BodyView::Empty,
            Body::Text(text) => BodyView::Text(text@),
            Body::Error(body) => BodyView::Error(body.message@),
            Body::Person(person) => BodyView::Person(person@),
            Body::Persons(rows) => BodyView::Persons(persons(rows@)),
        }
    }
}

impl BodyView {
    /// The content type that goes with the body, if it has one.
    pub open spec fn content_type(self) -> Option<ContentType> {
        match self {
            BodyView::Empty => None,
            BodyView::Text(_) => Some(ContentType::PlainText),
            _ => Some(ContentType::Json),
        }
    }
}

impl Body {
    /// The content type that goes with the body, if it has one.
    pub fn content_type(&self) -> (kind: Option<ContentType>)
        ensures
            kind == self@.content_type(),
    {
        match self {
            Body::Empty => None,
            Body::Text(_) => Some(ContentType::PlainText),
            _ => Some(ContentType::Json),
        }
    }
}

/// A response: its status, where the new record is to be found if one was
/// made, and its body.
#[derive(Debug, Clone, PartialEq, Eq)]
pub struct Response {
    pub status: StatusCode,
    pub location: Option<String>,
    pub body: Body,
}

/// What a [`Response`] holds, as mathematical values.
pub ghost struct ResponseView {
    pub status: StatusCode,
    pub location: Option<Seq<char>>,
    pub body: BodyView,
}

impl View for Response {
    type V = ResponseView;

    open spec fn view(&self) -> ResponseView {
        ResponseView {
            status: self.status,
            location: match self.location {
                Some(place) => Some(place@),
                None => None,
            },
            body: self.body@,
        }
    }
}

} // verus!
