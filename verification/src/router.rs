//! The router: which route a method and a path select, and the whole path
//! of a request from the match through the extractors and the handler to
//! the response.

use crate::extract::{
    extract_item, extract_item_id, extract_page, extract_user_id, item_title, large_max,
    page_number, small_max,
};
use crate::handlers::{
    add_item, added_line, create_user, created_reply, delete_failure_reply, delete_user,
    deleted_user, greeting, is_protected, item_line, list_fixed_users, fixed_users_spec,
    protected_text, root, show_item,
};
use crate::json::{json_text_member, user_json_spec};
use crate::model::{Content, Method, Rejection, Response, ResponseView, Route, UserSource};
use crate::response::{json_reply, not_found_reply, rejection_reply, reply, users_reply};
use crate::text::{chars_of, find_char, find_from, is_text, parse_unsigned_spec, same_chars};
use vstd::prelude::*;
use vstd::slice::slice_subrange;

verus! {

/// What the service does next for a request.
#[derive(Debug)]
pub enum Step {
    /// Send this response.
    Reply(Response),
    /// Read all rows of the `users` relation, then hand the outcome to
    /// [`crate::handlers::get_users`].
    QueryUsers,
}

/// A step as a value of the mathematical model.
pub enum StepView {
    Reply(ResponseView),
    QueryUsers,
}

impl View for Step {
    type V = StepView;

    open spec fn view(&self) -> StepView {
        match self {
            Step::Reply(response) => StepView::Reply(response@),
            Step::QueryUsers => StepView::QueryUsers,
        }
    }
}

/// The method that a request line names. Names are matched exactly, in
/// upper case.
pub open spec fn method_named(name: Seq<char>) -> Method {
    if name == "GET"@ {
        Method::Get
    } else if name == "POST"@ {
        Method::Post
    } else if name == "DELETE"@ {
        Method::Delete
    } else {
        Method::Other
    }
}

/// The one segment that follows `prefix` in `path`: the rest of the path,
/// where the path starts with the prefix and the rest is not empty and holds
/// no further `/`.
pub open spec fn param_of(path: Seq<char>, prefix: Seq<char>) -> Option<Seq<char>> {
    if path.len() > prefix.len() && path.subrange(0, prefix.len() as int) == prefix && find_from(
        path,
        '/',
        prefix.len() as int,
    ) == path.len() {
        Some(path.subrange(prefix.len() as int, path.len() as int))
    } else {
        None
    }
}

/// The route that a method and a path select. Literal segments match
/// exactly; a parameter segment matches whatever it holds.
pub open spec fn route_of(method: Method, path: Seq<char>) -> Option<Route> {
    match method {
        Method::Get => if path == "/"@ {
            Some(Route::Root)
        } else if path == "/users"@ {
            Some(Route::ListUsers)
        } else if param_of(path, "/item/"@) is Some {
            Some(Route::ShowItem)
        } else {
            None
        },
        Method::Post => if path == "/create-user"@ {
            Some(Route::CreateUser)
        } else if path == "/add-item"@ {
            Some(Route::AddItem)
        } else {
            None
        },
        Method::Delete => if param_of(path, "/delete-user/"@) is Some {
            Some(Route::DeleteUser)
        } else {
            None
        },
        Method::Other => None,
    }
}

/// The parameter segment of a path under a route; empty for a route that
/// has none.
pub open spec fn route_param(route: Route, path: Seq<char>) -> Seq<char> {
    let found = match route {
        Route::ShowItem => param_of(path, "/item/"@),
        Route::DeleteUser => param_of(path, "/delete-user/"@),
        _ => None,
    };
    match found {
        Some(segment) => segment,
        None => Seq::empty(),
    }
}

/// The response of the item page, from the path segment and the query.
pub open spec fn show_item_reply(segment: Seq<char>, query: Seq<char>) -> ResponseView {
    match parse_unsigned_spec(segment, small_max()) {
        None => rejection_reply(Rejection::Path),
        Some(id) => match page_number(query) {
            None => rejection_reply(Rejection::Query),
            Some(number) => reply(200, Content::Text, item_line(id, number)),
        },
    }
}

/// The response to an added item, from the `title` member of the body.
pub open spec fn add_item_reply(member: Option<Seq<char>>) -> ResponseView {
    match item_title(member) {
        Ok(title) => reply(200, Content::Text, added_line(title)),
        Err(e) => rejection_reply(e),
    }
}

/// The response to a deletion, from the path segment.
pub open spec fn delete_user_reply(segment: Seq<char>) -> ResponseView {
    match parse_unsigned_spec(segment, large_max()) {
        None => rejection_reply(Rejection::Path),
        Some(id) => if is_protected(id as u64) {
            delete_failure_reply(protected_text())
        } else {
            json_reply(user_json_spec(deleted_user(id as u64)))
        },
    }
}

/// What the service does for a request.
pub open spec fn handle_spec(
    source: UserSource,
    method: Method,
    path: Seq<char>,
    query: Seq<char>,
    body: Seq<u8>,
) -> StepView {
    match route_of(method, path) {
        None => StepView::Reply(not_found_reply()),
        Some(Route::Root) => StepView::Reply(reply(200, Content::Text, greeting())),
        Some(Route::CreateUser) => StepView::Reply(created_reply()),
        Some(Route::ShowItem) => StepView::Reply(
            show_item_reply(route_param(Route::ShowItem, path), query),
        ),
        Some(Route::AddItem) => StepView::Reply(
            add_item_reply(json_text_member(body, "title"@)),
        ),
        Some(Route::DeleteUser) => StepView::Reply(
            delete_user_reply(route_param(Route::DeleteUser, path)),
        ),
        Some(Route::ListUsers) => match source {
            UserSource::Fixed => StepView::Reply(users_reply(Some(fixed_users_spec()))),
            UserSource::Store => StepView::QueryUsers,
        },
    }
}

/// Reads the name of a request method.
pub fn parse_method(name: &str) -> (r: Method)
    ensures
        r == method_named(name@),
{
    let chars: Vec<char> = chars_of(name);
    if is_text(chars.as_slice(), "GET") {
        Method::Get
    } else if is_text(chars.as_slice(), "POST") {
        Method::Post
    } else if is_text(chars.as_slice(), "DELETE") {
        Method::Delete
    } else {
        Method::Other
    }
}

/// The segment that follows `prefix` in `path`, where the path has that
/// shape.
pub fn match_param<'a>(path: &'a [char], prefix: &str) -> (r: Option<&'a [char]>)
    ensures
        match r {
            Some(segment) => param_of(path@, prefix@) == Some(segment@),
            None => param_of(path@, prefix@) is None,
        },
{
    let head: Vec<char> = chars_of(prefix);
    let p: usize = head.len();
    if path.len() <= p {
        return None;
    }
    if !same_chars(slice_subrange(path, 0, p), head.as_slice()) {
        return None;
    }
    if find_char(path, '/', p) != path.len() {
        return None;
    }
    Some(slice_subrange(path, p, path.len()))
}

/// Matches a method and a path against the routes. The parameter segment
/// comes back with the route, unread: whether it is a number is for the
/// extractor to say.
pub fn match_route<'a>(method: Method, path: &'a [char]) -> (r: Option<(Route, &'a [char])>)
    ensures
        match r {
            Some((route, segment)) => route_of(method, path@) == Some(route) && segment@
                == route_param(route, path@),
            None => route_of(method, path@) is None,
        },
{
    let none: &[char] = slice_subrange(path, 0, 0);
    assert(none@ =~= Seq::<char>::empty());
    match method {
        Method::Get => {
            if is_text(path, "/") {
                Some((Route::Root, none))
            } else if is_text(path, "/users") {
                Some((Route::ListUsers, none))
            } else {
                match match_param(path, "/item/") {
                    Some(segment) => Some((Route::ShowItem, segment)),
                    None => None,
                }
            }
        },
        Method::Post => {
            if is_text(path, "/create-user") {
                Some((Route::CreateUser, none))
            } else if is_text(path, "/add-item") {
                Some((Route::AddItem, none))
            } else {
                None
            }
        },
        Method::Delete => {
            match match_param(path, "/delete-user/") {
                Some(segment) => Some((Route::DeleteUser, segment)),
                None => None,
            }
        },
        Method::Other => None,
    }
}

/// Runs the extractors and the handler of the item page.
pub fn respond_show_item(segment: &[char], query: &[char]) -> (r: Response)
    ensures
        r@ == show_item_reply(segment@, query@),
{
    match extract_item_id(segment) {
        Err(e) => Response::rejected(e),
        Ok(id) => match extract_page(query) {
            Err(e) => Response::rejected(e),
            Ok(page) => Response::from_text(show_item(id, page)),
        },
    }
}

/// Runs the extractor and the handler of an added item.
pub fn respond_add_item(body: &[u8]) -> (r: Response)
    ensures
        r@ == add_item_reply(json_text_member(body@, "title"@)),
{
    match extract_item(body) {
        Err(e) => Response::rejected(e),
        Ok(item) => Response::from_text(add_item(item)),
    }
}

/// Runs the extractor and the handler of a deletion.
pub fn respond_delete_user(segment: &[char]) -> (r: Response)
    ensures
        r@ == delete_user_reply(segment@),
{
    match extract_user_id(segment) {
        Err(e) => Response::rejected(e),
        Ok(id) => match delete_user(id) {
            Ok(user) => Response::from_user(&user),
            Err(response) => response,
        },
    }
}

/// Handles one request: matches the route, runs its extractors and its
/// handler, and builds the response. For the user list of a store the
/// read is the caller's to make.
pub fn handle(source: UserSource, method: Method, path: &str, query: &str, body: &[u8]) -> (r:
    Step)
    ensures
        r@ == handle_spec(source, method, path@, query@, body@),
{
    let path_chars: Vec<char> = chars_of(path);
    match match_route(method, path_chars.as_slice()) {
        None => Step::Reply(Response::not_found()),
        Some((route, segment)) => match route {
            Route::Root => Step::Reply(Response::from_text(root())),
            Route::CreateUser => Step::Reply(create_user()),
            Route::ShowItem => {
                let query_chars: Vec<char> = chars_of(query);
                Step::Reply(respond_show_item(segment, query_chars.as_slice()))
            },
            Route::AddItem => Step::Reply(respond_add_item(body)),
            Route::DeleteUser => Step::Reply(respond_delete_user(segment)),
            Route::ListUsers => match source {
                UserSource::Fixed => Step::Reply(list_fixed_users()),
                UserSource::Store => Step::QueryUsers,
            },
        },
    }
}

} // verus!
