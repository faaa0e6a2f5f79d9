//! The replies that the inbox gives, as plain values for the HTTP layer to
//! send.

use vstd::prelude::*;

verus! {

/// The HTTP status of a reply.
#[derive(Clone, Copy, Debug, PartialEq, Eq, Structural)]
pub enum Status {
    /// 200
    Success,
    /// 400
    BadRequest,
    /// 401
    Unauthorized,
    /// 422
    UnprocessableEntity,
    /// 500
    InternalServerError,
}

/// How the body of a reply is to be read.
#[derive(Clone, Copy, Debug, PartialEq, Eq, Structural)]
pub enum ContentType {
    /// `text/html`
    Html,
    /// `text/plain`
    PlainText,
}

/// A reply with a body.
#[derive(Debug)]
pub struct Reply {
    pub status: Status,
    pub content_type: ContentType,
    pub body: String,
}

/// The mathematical content of a [`Reply`].
pub struct ReplyView {
    pub status: Status,
    pub content_type: ContentType,
    pub body: Seq<char>,
}

impl View for Reply {
    type V = ReplyView;

    open spec fn view(&self) -> ReplyView {
        ReplyView { status: self.status, content_type: self.content_type, body: self.body@ }
    }
}

/// The number of a status.
pub open spec fn spec_code(status: Status) -> u16 {
    match status {
        Status::Success => 200,
        Status::BadRequest => 400,
        Status::Unauthorized => 401,
        Status::UnprocessableEntity => 422,
        Status::InternalServerError => 500,
    }
}

/// The reply that refuses a caller: the reason as plain text, under
/// `401 Unauthorized`.
pub open spec fn spec_refusal_reply(message: Seq<char>) -> ReplyView {
    ReplyView { status: Status::Unauthorized, content_type: ContentType::PlainText, body: message }
}

/// The reply that presents a rendered page: the page under `200`, or a
/// plain internal error if rendering failed.
pub open spec fn spec_page_reply(rendered: Option<Seq<char>>) -> ReplyView {
    match rendered {
        Some(html) => ReplyView {
            status: Status::Success,
            content_type: ContentType::Html,
            body: html,
        },
        None => ReplyView {
            status: Status::InternalServerError,
            content_type: ContentType::PlainText,
            body: "Template rendering failed"@,
        },
    }
}

impl Status {
    /// The number of the status.
    pub fn code(self) -> (code: u16)
        ensures
            code == spec_code(self),
    {
        match self {
            Status::Success => 200,
            Status::BadRequest => 400,
            Status::Unauthorized => 401,
            Status::UnprocessableEntity => 422,
            Status::InternalServerError => 500,
        }
    }

    /// Whether the status reports a fault of the client: a number from 400
    /// to 499.
    pub fn is_client_error(self) -> (b: bool)
        ensures
            b == (400 <= spec_code(self) < 500),
    {
        match self {
            Status::BadRequest | Status::Unauthorized | Status::UnprocessableEntity => true,
            _ => false,
        }
    }
}

/// Refuses a caller with `message`, as plain text under `401`.
pub fn refusal_reply(message: &str) -> (reply: Reply)
    ensures
        reply@ == spec_refusal_reply(message@),
{
    Reply {
        status: Status::Unauthorized,
        content_type: ContentType::PlainText,
        body: message.to_string(),
    }
}

/// Presents a page, given the outcome of rendering it: `None` stands for a
/// rendering that failed.
pub fn page_reply(rendered: Option<String>) -> (reply: Reply)
    ensures
        reply@ == spec_page_reply(rendered.deep_view()),
{
    match rendered {
        Some(html) => Reply { status: Status::Success, content_type: ContentType::Html, body: html },
        None => Reply {
            status: Status::InternalServerError,
            content_type: ContentType::PlainText,
            body: "Template rendering failed".to_string(),
        },
    }
}

} // verus!
