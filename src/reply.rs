//! The reply a route hands back: a status, a content type and a body.

use vstd::prelude::*;
use crate::json::{Field, member_body, json_member};

verus! {

/// How a reply's body is to be read.
#[derive(Clone, Copy, Debug, PartialEq, Eq, Structural)]
pub enum ContentType {
    /// `text/plain`
    Text,
    /// `application/json`
    Json,
}

/// A complete HTTP reply.
#[derive(Debug)]
pub struct Reply {
    pub status: u16,
    pub content_type: ContentType,
    pub body: String,
}

/// The mathematical content of a [`Reply`].
pub struct ReplyView {
    pub status: u16,
    pub content_type: ContentType,
    pub body: Seq<char>,
}

impl View for Reply {
    type V = ReplyView;

    open spec fn view(&self) -> ReplyView {
        ReplyView { status: self.status, content_type: self.content_type, body: self.body@ }
    }
}

/// The message that replaces whatever a failure would have disclosed.
pub open spec fn internal_error_message() -> Seq<char> {
    "Internal Server Error"@
}

/// A JSON reply with body `{"<field>":"<value>"}`.
pub open spec fn json_reply_of(status: u16, field: Field, value: Seq<char>) -> ReplyView {
    ReplyView { status, content_type: ContentType::Json, body: member_body(field, value) }
}

/// A plain text reply.
pub open spec fn text_reply_of(status: u16, text: Seq<char>) -> ReplyView {
    ReplyView { status, content_type: ContentType::Text, body: text }
}

impl Reply {
    pub fn text(status: u16, text: String) -> (r: Reply)
        ensures
            r@ == text_reply_of(status, text@),
    {
        Reply { status, content_type: ContentType::Text, body: text }
    }

    /// A JSON reply whose object holds `value` under `field`.
    pub fn json(status: u16, field: Field, value: &str) -> (r: Reply)
        ensures
            r@ == json_reply_of(status, field, value@),
    {
        Reply { status, content_type: ContentType::Json, body: json_member(field, value) }
    }
}

} // verus!
