//! The validation rules and the handlers of the six routes, each from its
//! decoded input to a result.

use vstd::prelude::*;
use crate::error::{AppError, ErrorView, invalid};
use crate::text::{blank, decimal, is_blank, push_decimal, trimmed, trimmed_len};

verus! {

/// The most characters a name may have once trimmed.
pub const NAME_MAX_CHARS: usize = 50;

/// The youngest accepted age.
pub const AGE_MIN: u8 = 1;

/// The oldest accepted age.
pub const AGE_MAX: u8 = 120;

/// The body of a create or replace request.
#[derive(Debug)]
pub struct CreateInput {
    pub name: String,
    pub age: u8,
}

/// The body of a partial update: each field may be left out.
#[derive(Debug)]
pub struct PatchInput {
    pub name: Option<String>,
    pub age: Option<u8>,
}

impl PatchInput {
    pub open spec fn name_view(&self) -> Option<Seq<char>> {
        match self.name {
            Some(n) => Some(n@),
            None => None,
        }
    }
}

/// Why a name is refused, if it is: nothing is left of it after trimming,
/// or what is left has more than fifty characters.
pub open spec fn name_error(name: Seq<char>) -> Option<Seq<char>> {
    if blank(name) {
        Some("Name cannot be empty"@)
    } else if trimmed(name).len() > NAME_MAX_CHARS {
        Some("Name is too long (max 50 characters)"@)
    } else {
        None
    }
}

pub open spec fn age_valid(age: u8) -> bool {
    AGE_MIN <= age <= AGE_MAX
}

pub open spec fn age_error() -> Seq<char> {
    "Invalid age"@
}

/// What a handler with a plain text answer returns, in mathematical terms.
pub open spec fn text_outcome(r: Result<String, AppError>) -> Result<Seq<char>, ErrorView> {
    match r {
        Ok(t) => Ok(t@),
        Err(e) => Err(e@),
    }
}

/// What a handler with a JSON answer returns, in mathematical terms: the
/// status and the message, or the error.
pub open spec fn json_outcome(r: Result<(u16, String), AppError>) -> Result<
    (u16, Seq<char>),
    ErrorView,
> {
    match r {
        Ok((s, m)) => Ok((s, m@)),
        Err(e) => Err(e@),
    }
}

/// Accepts a name that, trimmed, is not empty and has at most fifty characters.
pub fn check_name(name: &str) -> (r: Result<(), AppError>)
    ensures
        match name_error(name@) {
            None => r is Ok,
            Some(m) => match r {
                Err(e) => e@ == invalid(m),
                Ok(_) => false,
            },
        },
{
    if is_blank(name) {
        return Err(AppError::ValidationError(String::from_str("Name cannot be empty")));
    }
    if trimmed_len(name) > NAME_MAX_CHARS {
        return Err(
            AppError::ValidationError(String::from_str("Name is too long (max 50 characters)")),
        );
    }
    Ok(())
}

/// Accepts an age from one to one hundred and twenty.
pub fn check_age(age: u8) -> (r: Result<(), AppError>)
    ensures
        age_valid(age) ==> r is Ok,
        !age_valid(age) ==> match r {
            Err(e) => e@ == invalid(age_error()),
            Ok(_) => false,
        },
{
    if age < AGE_MIN || age > AGE_MAX {
        return Err(AppError::ValidationError(String::from_str("Invalid age")));
    }
    Ok(())
}

/// The text that `GET /` answers with.
pub open spec fn welcome() -> Seq<char> {
    "Welcome to the Rust Web Server!"@
}

pub fn root() -> (r: &'static str)
    ensures
        r@ == welcome(),
{
    "Welcome to the Rust Web Server!"
}

pub open spec fn greeting(name: Seq<char>) -> Seq<char> {
    "Hello, "@ + name + "!"@
}

/// `GET /hello/{name}`: the greeting, or why the name is refused.
pub open spec fn hello_outcome(name: Seq<char>) -> Result<Seq<char>, ErrorView> {
    match name_error(name) {
        None => Ok(greeting(name)),
        Some(m) => Err(invalid(m)),
    }
}

pub fn hello(name: &str) -> (r: Result<String, AppError>)
    ensures
        text_outcome(r) == hello_outcome(name@),
{
    check_name(name)?;
    let mut out = String::from_str("Hello, ");
    out.append(name);
    out.append("!");
    Ok(out)
}

/// `<prefix><name>! You are <age> years old.`
pub open spec fn age_sentence(prefix: Seq<char>, name: Seq<char>, age: u8) -> Seq<char> {
    prefix + name + "! You are "@ + decimal(age as nat) + " years old."@
}

fn compose_age_sentence(prefix: &str, name: &str, age: u8) -> (r: String)
    ensures
        r@ == age_sentence(prefix@, name@, age),
{
    let mut out = String::from_str(prefix);
    out.append(name);
    out.append("! You are ");
    push_decimal(&mut out, age);
    out.append(" years old.");
    out
}

/// Why a create or replace body is refused, if it is: the name is checked
/// first, then the age.
pub open spec fn create_error(name: Seq<char>, age: u8) -> Option<Seq<char>> {
    match name_error(name) {
        Some(m) => Some(m),
        None => if age_valid(age) {
            None
        } else {
            Some(age_error())
        },
    }
}

/// A create or replace request answered with `status` on success.
pub open spec fn store_outcome(status: u16, name: Seq<char>, age: u8) -> Result<
    (u16, Seq<char>),
    ErrorView,
> {
    match create_error(name, age) {
        None => Ok((status, age_sentence("Hello, "@, name, age))),
        Some(m) => Err(invalid(m)),
    }
}

fn store(status: u16, input: &CreateInput) -> (r: Result<(u16, String), AppError>)
    ensures
        json_outcome(r) == store_outcome(status, input.name@, input.age),
{
    check_name(input.name.as_str())?;
    check_age(input.age)?;
    Ok((status, compose_age_sentence("Hello, ", input.name.as_str(), input.age)))
}

/// `POST /create`: 201 and the greeting, or why the body is refused.
pub fn handle_post(input: CreateInput) -> (r: Result<(u16, String), AppError>)
    ensures
        json_outcome(r) == store_outcome(201, input.name@, input.age),
{
    store(201, &input)
}

/// `PUT /update`: 200 and the greeting, or why the body is refused.
pub fn handle_put(input: CreateInput) -> (r: Result<(u16, String), AppError>)
    ensures
        json_outcome(r) == store_outcome(200, input.name@, input.age),
{
    store(200, &input)
}

/// Why a partial update is refused, if it is: a present name is checked
/// first, then a present age, then that something is present at all.
pub open spec fn patch_error(name: Option<Seq<char>>, age: Option<u8>) -> Option<Seq<char>> {
    if name is Some && name_error(name->0) is Some {
        name_error(name->0)
    } else if age is Some && !age_valid(age->0) {
        Some(age_error())
    } else if name is None && age is None {
        Some("At least one field must be provided"@)
    } else {
        None
    }
}

/// The message of an accepted partial update, naming what was supplied.
pub open spec fn patch_message(name: Option<Seq<char>>, age: Option<u8>) -> Seq<char> {
    match (name, age) {
        (Some(n), Some(a)) => age_sentence("Updated: "@, n, a),
        (Some(n), None) => "Updated name to: "@ + n,
        (None, Some(a)) => "Updated age to: "@ + decimal(a as nat),
        (None, None) => Seq::empty(),
    }
}

pub open spec fn patch_outcome(name: Option<Seq<char>>, age: Option<u8>) -> Result<
    (u16, Seq<char>),
    ErrorView,
> {
    match patch_error(name, age) {
        None => Ok((200, patch_message(name, age))),
        Some(m) => Err(invalid(m)),
    }
}

/// `PATCH /update`: 200 and a message naming the supplied fields, or why
/// the body is refused.
pub fn handle_patch(input: PatchInput) -> (r: Result<(u16, String), AppError>)
    ensures
        json_outcome(r) == patch_outcome(input.name_view(), input.age),
{
    if let Some(name) = &input.name {
        check_name(name.as_str())?;
    }
    if let Some(age) = input.age {
        check_age(age)?;
    }
    let message = match (&input.name, input.age) {
        (Some(name), Some(age)) => compose_age_sentence("Updated: ", name.as_str(), age),
        (Some(name), None) => {
            let mut out = String::from_str("Updated name to: ");
            out.append(name.as_str());
            out
        },
        (None, Some(age)) => {
            let mut out = String::from_str("Updated age to: ");
            push_decimal(&mut out, age);
            out
        },
        (None, None) => {
            return Err(
                AppError::ValidationError(String::from_str("At least one field must be provided")),
            );
        },
    };
    Ok((200, message))
}

/// `DELETE /delete/{id}`: a confirmation that echoes the id, or why it is
/// refused. Nothing is stored, so nothing is removed.
pub open spec fn delete_outcome(id: Seq<char>) -> Result<(u16, Seq<char>), ErrorView> {
    if blank(id) {
        Err(invalid("ID cannot be empty"@))
    } else {
        Ok((200, "Resource with ID '"@ + id + "' has been deleted"@))
    }
}

pub fn handle_delete(id: &str) -> (r: Result<(u16, String), AppError>)
    ensures
        json_outcome(r) == delete_outcome(id@),
{
    if is_blank(id) {
        return Err(AppError::ValidationError(String::from_str("ID cannot be empty")));
    }
    let mut out = String::from_str("Resource with ID '");
    out.append(id);
    out.append("' has been deleted");
    Ok((200, out))
}

} // verus!
