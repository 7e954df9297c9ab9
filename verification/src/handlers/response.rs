//! What a handler answers: a status code and a body.

use crate::models::user::{User, UserRecord};
use vstd::prelude::*;

verus! {

/// HTTP 200.
pub const OK: u16 = 200;

/// HTTP 201.
pub const CREATED: u16 = 201;

/// HTTP 404.
pub const NOT_FOUND: u16 = 404;

/// HTTP 500.
pub const INTERNAL_SERVER_ERROR: u16 = 500;

/// A response body as contracts see it.
pub enum BodyView {
    Text(Seq<char>),
    Users(Seq<UserRecord>),
}

/// A response body: plain text, or a list of users to be sent as a JSON
/// array.
#[derive(Debug)]
pub enum Body {
    Text(String),
    Users(Vec<User>),
}

impl View for Body {
    type V = BodyView;

    open spec fn view(&self) -> BodyView {
        match self {
            Body::Text(text) => BodyView::Text(text@),
            Body::Users(users) => BodyView::Users(users.deep_view()),
        }
    }
}

/// A response as contracts see it.
pub struct ResponseView {
    pub status: u16,
    pub body: BodyView,
}

/// A handler's answer.
#[derive(Debug)]
pub struct Response {
    pub status: u16,
    pub body: Body,
}

impl View for Response {
    type V = ResponseView;

    open spec fn view(&self) -> ResponseView {
        ResponseView { status: self.status, body: self.body@ }
    }
}

/// A text response as contracts see it.
pub open spec fn text_response(status: u16, text: Seq<char>) -> ResponseView {
    ResponseView { status, body: BodyView::Text(text) }
}

impl Response {
    /// A response whose body is the given text.
    pub fn text(status: u16, text: &str) -> (response: Response)
        ensures
            response@ == text_response(status, text@),
    {
        Response { status, body: Body::Text(text.to_owned()) }
    }

    /// A response whose body is a label followed by a diagnostic.
    pub fn diagnostic(status: u16, label: &str, message: &str) -> (response: Response)
        ensures
            response@ == text_response(status, label@ + message@),
    {
        let mut text: String = label.to_owned();
        text.append(message);
        Response { status, body: Body::Text(text) }
    }
}

} // verus!
