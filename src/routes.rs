//! Each route from its decoded input to a complete reply, and the laws that
//! the replies obey.

use vstd::prelude::*;
use crate::error::{AppError, ErrorView, error_reply_of, invalid};
use crate::handlers::{
    CreateInput, PatchInput, NAME_MAX_CHARS, delete_outcome, greeting, handle_delete,
    handle_patch, handle_post, handle_put, hello, hello_outcome, json_outcome, patch_outcome,
    root, store_outcome, text_outcome, welcome,
};
use crate::json::Field;
use crate::reply::{ContentType, Reply, ReplyView, json_reply_of, text_reply_of};
use crate::text::{blank, lemma_blank_trims_to_empty, trimmed};

verus! {

/// The reply for a plain text handler's result: 200 and the text, or the
/// error's reply.
pub open spec fn text_route_reply(o: Result<Seq<char>, ErrorView>) -> ReplyView {
    match o {
        Ok(t) => text_reply_of(200, t),
        Err(e) => error_reply_of(e),
    }
}

/// The reply for a JSON handler's result: its status and
/// `{"message":"<message>"}`, or the error's reply.
pub open spec fn json_route_reply(o: Result<(u16, Seq<char>), ErrorView>) -> ReplyView {
    match o {
        Ok((s, m)) => json_reply_of(s, Field::Message, m),
        Err(e) => error_reply_of(e),
    }
}

pub fn text_response(r: Result<String, AppError>) -> (reply: Reply)
    ensures
        reply@ == text_route_reply(text_outcome(r)),
{
    match r {
        Ok(t) => Reply::text(200, t),
        Err(e) => e.into_response(),
    }
}

pub fn json_response(r: Result<(u16, String), AppError>) -> (reply: Reply)
    ensures
        reply@ == json_route_reply(json_outcome(r)),
{
    match r {
        Ok((status, message)) => Reply::json(status, Field::Message, message.as_str()),
        Err(e) => e.into_response(),
    }
}

/// `GET /`
pub fn respond_root() -> (r: Reply)
    ensures
        r@ == text_reply_of(200, welcome()),
{
    Reply::text(200, String::from_str(root()))
}

/// `GET /hello/{name}`; the reply is a function of the name alone.
pub fn respond_hello(name: &str) -> (r: Reply)
    ensures
        r@ == text_route_reply(hello_outcome(name@)),
{
    text_response(hello(name))
}

/// `POST /create`
pub fn respond_create(input: CreateInput) -> (r: Reply)
    ensures
        r@ == json_route_reply(store_outcome(201, input.name@, input.age)),
{
    json_response(handle_post(input))
}

/// `PUT /update`
pub fn respond_replace(input: CreateInput) -> (r: Reply)
    ensures
        r@ == json_route_reply(store_outcome(200, input.name@, input.age)),
{
    json_response(handle_put(input))
}

/// `PATCH /update`
pub fn respond_patch(input: PatchInput) -> (r: Reply)
    ensures
        r@ == json_route_reply(patch_outcome(input.name_view(), input.age)),
{
    json_response(handle_patch(input))
}

/// `DELETE /delete/{id}`; the reply is a function of the id alone.
pub fn respond_delete(id: &str) -> (r: Reply)
    ensures
        r@ == json_route_reply(delete_outcome(id@)),
{
    json_response(handle_delete(id))
}

/// A name with one to fifty characters after trimming is greeted: 200 with
/// the text `Hello, <name>!`, the name as given.
pub proof fn lemma_valid_name_greeted(name: Seq<char>)
    requires
        1 <= trimmed(name).len() <= NAME_MAX_CHARS,
    ensures
        hello_outcome(name) == Ok::<Seq<char>, ErrorView>(greeting(name)),
        text_route_reply(hello_outcome(name)) == (ReplyView {
            status: 200,
            content_type: ContentType::Text,
            body: "Hello, "@ + name + "!"@,
        }),
{
    if blank(name) {
        lemma_blank_trims_to_empty(name);
    }
}

/// An empty or all white space name is refused as invalid (status 400).
pub proof fn lemma_blank_name_refused(name: Seq<char>)
    requires
        blank(name),
    ensures
        hello_outcome(name) == Err::<Seq<char>, ErrorView>(invalid("Name cannot be empty"@)),
        text_route_reply(hello_outcome(name)).status == 400,
{
}

/// A name of more than fifty characters after trimming is refused as
/// invalid (status 400).
pub proof fn lemma_long_name_refused(name: Seq<char>)
    requires
        trimmed(name).len() > NAME_MAX_CHARS,
    ensures
        hello_outcome(name) == Err::<Seq<char>, ErrorView>(
            invalid("Name is too long (max 50 characters)"@),
        ),
        text_route_reply(hello_outcome(name)).status == 400,
{
    if blank(name) {
        lemma_blank_trims_to_empty(name);
    }
}

/// A blank id is refused as invalid (status 400).
pub proof fn lemma_blank_id_refused(id: Seq<char>)
    requires
        blank(id),
    ensures
        delete_outcome(id) == Err::<(u16, Seq<char>), ErrorView>(invalid("ID cannot be empty"@)),
        json_route_reply(delete_outcome(id)).status == 400,
{
}

} // verus!
