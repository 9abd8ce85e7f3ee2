//! The one way by which a failure of an operation becomes a response.

use crate::response::{Body, BodyView, ContentType, Response, ResponseView, StatusCode};
use vstd::prelude::*;
use vstd::string::*;

verus! {

/// A failure of an operation on its way to the client.
#[derive(Debug, Clone, PartialEq, Eq)]
pub struct HttpError<T>(pub T);

/// An error that knows the status it is answered with.
pub trait ToHttpStatus {
    /// The status that answers this error.
    spec fn status(&self) -> StatusCode;

    /// The status that answers this error.
    fn status_code(&self) -> (code: StatusCode)
        ensures
            code == self.status(),
    ;
}

/// An error that has a fixed text for the client.
pub trait Message {
    /// The text of this error.
    spec fn message(&self) -> Seq<char>;

    /// The text of this error.
    fn to_string(&self) -> (text: String)
        ensures
            text@ == self.message(),
    ;
}

/// The body of every failure: an object with the one field `message`.
#[derive(Debug, Clone, PartialEq, Eq)]
pub struct ErrorBody {
    pub message: String,
}

/// A text as a JSON string: between quotes, with what JSON does not take as
/// it stands escaped. The escaping is `serde_json`'s.
pub uninterp spec fn json_string(text: Seq<char>) -> Seq<char>;

/// Has `serde_json` write `text` as a JSON string, by the `Display` of a
/// `Value::String`, which is the compact form.
#[verifier::external_body]
fn quoted(text: &str) -> (json: String)
    ensures
        json@ == json_string(text@),
{
    serde_json::Value::String(text.to_owned()).to_string()
}

impl ErrorBody {
    /// The object around a message that is already a JSON string.
    pub open spec fn framed(message: Seq<char>) -> Seq<char> {
        "{\"message\":"@ + message + "}"@
    }

    /// Puts the object around a message that is already a JSON string.
    pub fn frame(message: &str) -> (json: String)
        ensures
            json@ == Self::framed(message@),
    {
        let mut json = String::from_str("{\"message\":");
        json.append(message);
        json.append("}");
        json
    }

    /// The body as it goes on the wire.
    pub fn to_json(&self) -> (json: String)
        ensures
            json@ == Self::framed(json_string(self.message@)),
    {
        let message = quoted(self.message.as_str());
        Self::frame(message.as_str())
    }
}

/// The response to an error with the status `status` and the text
/// `message`: that status, no location, and the text as the one field of the
/// body.
pub open spec fn failure(status: StatusCode, message: Seq<char>) -> ResponseView {
    ResponseView { status, location: None, body: BodyView::Error(message) }
}

/// Every failure goes out under the status of its error, as JSON, without
/// a location, and with the text of the error as its one field.
pub proof fn lemma_failure_is_json(status: StatusCode, message: Seq<char>)
    ensures
        failure(status, message).status == status,
        failure(status, message).location is None,
        failure(status, message).body == BodyView::Error(message),
        failure(status, message).body.content_type() == Some(ContentType::Json),
{
}

impl<T> HttpError<T> {
    /// Wraps the failure of an operation.
    pub fn new(value: T) -> (error: Self)
        ensures
            error.0 == value,
    {
        HttpError(value)
    }
}

impl<T: ToHttpStatus + Message> HttpError<T> {
    /// The response that tells the client of this error.
    pub fn error_response(&self) -> (response: Response)
        ensures
            response@ == failure(self.0.status(), self.0.message()),
    {
        Response {
            status: self.0.status_code(),
            location: None,
            body: Body::Error(ErrorBody { message: self.0.to_string() }),
        }
    }
}

} // verus!
