//! JSON at the edge of the pipeline: reading a text member out of a request
//! body and writing user records. Parsing and string escaping are
//! `serde_json`'s; the framing of records is done here.

use crate::model::{users_view, User, UserView};
use crate::text::{decimal, to_decimal};
use vstd::prelude::*;

verus! {

/// The JSON string literal, quotes and escapes included, that `serde_json`
/// writes for the text `s`; `None` where it reports an error.
pub uninterp spec fn json_quoted(s: Seq<char>) -> Option<Seq<char>>;

/// The text of the member `key` of the JSON object that `serde_json` reads
/// from `body`; `None` where `body` is no JSON document, is no object, has
/// no such member, or the member is no string.
pub uninterp spec fn json_text_member(body: Seq<u8>, key: Seq<char>) -> Option<Seq<char>>;

/// The model of an optional text.
pub open spec fn text_of(t: Option<String>) -> Option<Seq<char>> {
    match t {
        Some(s) => Some(s@),
        None => None,
    }
}

/// Calls `serde_json::to_string` on a string slice. The contract gives its
/// result the name [`json_quoted`]: the output depends on the text alone.
/// Nothing is claimed of what the literal looks like, nor that the call
/// succeeds.
#[verifier::external_body]
pub(crate) fn quote(s: &str) -> (r: Option<String>)
    ensures
        text_of(r) == json_quoted(s@),
{
    serde_json::to_string(s).ok()
}

/// Calls `serde_json::from_slice` for a `serde_json::Value` and, where the
/// document is an object, `serde_json::Map::get` for `key`. The contract
/// gives the text found the name [`json_text_member`]: it depends on the
/// bytes and the key alone. Nothing is claimed of which bytes are accepted.
#[verifier::external_body]
pub(crate) fn text_member(body: &[u8], key: &str) -> (r: Option<String>)
    ensures
        text_of(r) == json_text_member(body@, key@),
{
    match serde_json::from_slice::<serde_json::Value>(body) {
        Ok(serde_json::Value::Object(members)) => match members.get(key) {
            Some(serde_json::Value::String(text)) => Some(text.clone()),
            _ => None,
        },
        _ => None,
    }
}

/// The JSON object of a user whose name and email are already written as
/// JSON string literals: the members `id`, `name`, `email`, in this order,
/// without white space.
pub open spec fn user_object(id: nat, name: Seq<char>, email: Seq<char>) -> Seq<char> {
    "{\"id\":"@ + decimal(id) + ",\"name\":"@ + name + ",\"email\":"@ + email + "}"@
}

/// The JSON object of a user; `None` where one of its texts cannot be
/// written.
pub open spec fn user_json_spec(u: UserView) -> Option<Seq<char>> {
    match (json_quoted(u.name), json_quoted(u.email)) {
        (Some(name), Some(email)) => Some(user_object(u.id, name, email)),
        _ => None,
    }
}

/// The JSON objects of `users`, in order, separated by commas; `None` where
/// one of them cannot be written.
pub open spec fn user_list_items(users: Seq<UserView>) -> Option<Seq<char>>
    decreases users.len(),
{
    if users.len() == 0 {
        Some(Seq::empty())
    } else {
        match (user_list_items(users.drop_last()), user_json_spec(users.last())) {
            (Some(head), Some(last)) => Some(
                if users.len() == 1 {
                    last
                } else {
                    head + ","@ + last
                },
            ),
            _ => None,
        }
    }
}

/// The JSON array of `users`; `None` where one of them cannot be written.
pub open spec fn user_list_json_spec(users: Seq<UserView>) -> Option<Seq<char>> {
    match user_list_items(users) {
        Some(items) => Some("["@ + items + "]"@),
        None => None,
    }
}

/// Where a prefix of a list cannot be written, neither can the list.
pub proof fn lemma_user_list_items_prefix(users: Seq<UserView>, k: int)
    requires
        0 <= k <= users.len(),
        user_list_items(users.subrange(0, k)) is None,
    ensures
        user_list_items(users) is None,
    decreases users.len(),
{
    if k == users.len() {
        assert(users.subrange(0, k) =~= users);
    } else {
        assert(users.drop_last().subrange(0, k) =~= users.subrange(0, k));
        lemma_user_list_items_prefix(users.drop_last(), k);
    }
}

/// Frames a user object from the id and the two string literals.
pub fn render_user(id: u64, name: &str, email: &str) -> (r: String)
    ensures
        r@ == user_object(id as nat, name@, email@),
{
    let mut out: String = String::from_str("{\"id\":");
    let digits: String = to_decimal(id);
    out.append(digits.as_str());
    out.append(",\"name\":");
    out.append(name);
    out.append(",\"email\":");
    out.append(email);
    out.append("}");
    out
}

/// Writes a user as a JSON object.
pub fn user_json(u: &User) -> (r: Option<String>)
    ensures
        text_of(r) == user_json_spec(u@),
{
    match quote(u.name.as_str()) {
        None => None,
        Some(name) => match quote(u.email.as_str()) {
            None => None,
            Some(email) => Some(render_user(u.id, name.as_str(), email.as_str())),
        },
    }
}

/// Writes a list of users as a JSON array, in the order of the list.
pub fn user_list_json(users: &Vec<User>) -> (r: Option<String>)
    ensures
        text_of(r) == user_list_json_spec(users_view(users@)),
{
    let ghost all = users_view(users@);
    let n: usize = users.len();
    let mut items: String = String::new();
    let mut i: usize = 0;
    while i < n
        invariant
            n == users@.len(),
            i <= n,
            all == users_view(users@),
            user_list_items(all.subrange(0, i as int)) == Some(items@),
        decreases n - i,
    {
        let ghost before = all.subrange(0, i as int);
        let ghost after = all.subrange(0, i + 1);
        assert(after.drop_last() =~= before);
        assert(after.last() == users@[i as int]@);
        match user_json(&users[i]) {
            None => {
                proof {
                    lemma_user_list_items_prefix(all, i + 1);
                }
                return None;
            },
            Some(object) => {
                if i > 0 {
                    items.append(",");
                    items.append(object.as_str());
                } else {
                    assert(before =~= Seq::<UserView>::empty());
                    items.append(object.as_str());
                    assert(items@ =~= object@);
                }
            },
        }
        i += 1;
    }
    assert(all.subrange(0, n as int) =~= all);
    let mut out: String = String::from_str("[");
    out.append(items.as_str());
    out.append("]");
    Some(out)
}

} // verus!
