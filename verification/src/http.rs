//! The replies that the middleware and the handlers hand back.

use vstd::prelude::*;
use crate::text::join;

verus! {

/// The status codes the service answers with.
#[derive(Clone, Copy, Debug, PartialEq, Eq, Structural)]
pub enum StatusCode {
    Success,
    BadRequest,
    Unauthorized,
    NotFound,
    InternalServerError,
}

impl StatusCode {
    /// The number that goes on the wire.
    pub open spec fn number(self) -> u16 {
        match self {
            StatusCode::Success => 200,
            StatusCode::BadRequest => 400,
            StatusCode::Unauthorized => 401,
            StatusCode::NotFound => 404,
            StatusCode::InternalServerError => 500,
        }
    }

    pub fn code(self) -> (n: u16)
        ensures
            n == self.number(),
    {
        match self {
            StatusCode::Success => 200,
            StatusCode::BadRequest => 400,
            StatusCode::Unauthorized => 401,
            StatusCode::NotFound => 404,
            StatusCode::InternalServerError => 500,
        }
    }
}

/// A reply with a plain-text body.
#[derive(Debug, PartialEq, Eq)]
pub struct TextReply {
    pub status: StatusCode,
    pub body: String,
}

/// What a `TextReply` holds.
pub struct TextReplyView {
    pub status: StatusCode,
    pub body: Seq<char>,
}

impl View for TextReply {
    type V = TextReplyView;

    open spec fn view(&self) -> TextReplyView {
        TextReplyView { status: self.status, body: self.body@ }
    }
}

/// The plain-text reply with this status and this body.
pub open spec fn text_reply(status: StatusCode, body: Seq<char>) -> TextReplyView {
    TextReplyView { status, body }
}

impl TextReply {
    pub fn new(status: StatusCode, body: String) -> (reply: TextReply)
        ensures
            reply@ == text_reply(status, body@),
    {
        TextReply { status, body }
    }

    /// The reply with a fixed message.
    pub fn message(status: StatusCode, body: &str) -> (reply: TextReply)
        ensures
            reply@ == text_reply(status, body@),
    {
        TextReply { status, body: body.to_owned() }
    }

    /// The reply whose message ends in the detail of a failure.
    pub fn failure(status: StatusCode, what: &str, detail: &str) -> (reply: TextReply)
        ensures
            reply@ == text_reply(status, what@ + detail@),
    {
        TextReply { status, body: join(what, detail) }
    }
}

/// What a handler answers: a value to be sent as JSON with status 200, or a
/// plain-text reply with a status of its own.
#[derive(Debug, PartialEq, Eq)]
pub enum Reply<T> {
    Json(T),
    Text(TextReply),
}

impl<T> Reply<T> {
    /// The status the reply goes out with.
    pub open spec fn status_spec(&self) -> StatusCode {
        match self {
            Reply::Json(_) => StatusCode::Success,
            Reply::Text(reply) => reply.status,
        }
    }

    pub fn status(&self) -> (status: StatusCode)
        ensures
            status == self.status_spec(),
    {
        match self {
            Reply::Json(_) => StatusCode::Success,
            Reply::Text(reply) => reply.status,
        }
    }
}

} // verus!
