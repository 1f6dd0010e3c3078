//! The response builder: status codes and bodies for handler results and
//! for the errors of each class.

use crate::json::{text_of, user_json, user_json_spec, user_list_json, user_list_json_spec};
use crate::model::{Content, Rejection, Response, ResponseView, User, UserView, users_view};
use vstd::prelude::*;

verus! {

/// The response with the given parts.
pub open spec fn reply(status: u16, content: Content, body: Seq<char>) -> ResponseView {
    ResponseView { status, content, body }
}

/// The text that tells a client which part of its request was turned down.
pub open spec fn rejection_text(e: Rejection) -> Seq<char> {
    match e {
        Rejection::Path => "Invalid path parameter"@,
        Rejection::Query => "Invalid query string"@,
        Rejection::Body => "Invalid request body"@,
    }
}

/// The response to a request that an extractor turned down.
pub open spec fn rejection_reply(e: Rejection) -> ResponseView {
    reply(400, Content::Text, rejection_text(e))
}

/// The response to a request that no route matches.
pub open spec fn not_found_reply() -> ResponseView {
    reply(404, Content::Empty, Seq::empty())
}

/// The response to a failure of the data store or of serialisation: no
/// detail, and nothing of a partial result.
pub open spec fn failure_reply() -> ResponseView {
    reply(500, Content::Text, "Internal server error"@)
}

/// The response that carries a JSON document, where it could be written.
pub open spec fn json_reply(document: Option<Seq<char>>) -> ResponseView {
    match document {
        Some(body) => reply(200, Content::Json, body),
        None => failure_reply(),
    }
}

/// The response that lists users, from what the read of the store gave.
pub open spec fn users_reply(outcome: Option<Seq<UserView>>) -> ResponseView {
    match outcome {
        Some(users) => json_reply(user_list_json_spec(users)),
        None => failure_reply(),
    }
}

impl Response {
    /// A plain-text response.
    pub fn text(status: u16, body: String) -> (r: Response)
        ensures
            r@ == reply(status, Content::Text, body@),
    {
        Response { status, content: Content::Text, body }
    }

    /// A `200` response with a JSON body.
    pub fn json(body: String) -> (r: Response)
        ensures
            r@ == reply(200, Content::Json, body@),
    {
        Response { status: 200, content: Content::Json, body }
    }

    /// The `404` response, with an empty body.
    pub fn not_found() -> (r: Response)
        ensures
            r@ == not_found_reply(),
    {
        Response { status: 404, content: Content::Empty, body: String::new() }
    }

    /// The generic `500` response.
    pub fn failure() -> (r: Response)
        ensures
            r@ == failure_reply(),
    {
        Response::text(500, String::from_str("Internal server error"))
    }

    /// The `400` response for a request that an extractor turned down.
    pub fn rejected(e: Rejection) -> (r: Response)
        ensures
            r@ == rejection_reply(e),
    {
        let body: &str = match e {
            Rejection::Path => "Invalid path parameter",
            Rejection::Query => "Invalid query string",
            Rejection::Body => "Invalid request body",
        };
        Response::text(400, String::from_str(body))
    }

    /// A handler's text as a `200` response.
    pub fn from_text(body: String) -> (r: Response)
        ensures
            r@ == reply(200, Content::Text, body@),
    {
        Response::text(200, body)
    }

    /// A JSON document as a `200` response, or the generic `500` where the
    /// document could not be written.
    pub fn from_json(document: Option<String>) -> (r: Response)
        ensures
            r@ == json_reply(text_of(document)),
    {
        match document {
            Some(body) => Response::json(body),
            None => Response::failure(),
        }
    }

    /// A user as a JSON response.
    pub fn from_user(user: &User) -> (r: Response)
        ensures
            r@ == json_reply(user_json_spec(user@)),
    {
        Response::from_json(user_json(user))
    }

    /// A list of users as a JSON response, in the order of the list.
    pub fn from_users(users: &Vec<User>) -> (r: Response)
        ensures
            r@ == users_reply(Some(users_view(users@))),
    {
        Response::from_json(user_list_json(users))
    }
}

} // verus!
