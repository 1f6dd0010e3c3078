//! The handlers, one per endpoint. Each takes what the extractors produced
//! and returns a typed result; none parses or routes.

use crate::model::{Content, Item, Page, Response, ResponseView, User, UserRow, UserView, users_view};
use crate::response::{failure_reply, reply, users_reply};
use crate::text::{decimal, to_decimal};
use vstd::prelude::*;

verus! {

/// The greeting at the root.
pub open spec fn greeting() -> Seq<char> {
    "Hello, Rust!"@
}

/// The confirmation that a user was created.
pub open spec fn created_reply() -> ResponseView {
    reply(201, Content::Text, "User created successfully"@)
}

/// The line that shows an item on a page.
pub open spec fn item_line(id: nat, number: nat) -> Seq<char> {
    "Item "@ + decimal(id) + " on page "@ + decimal(number)
}

/// The line that confirms an added item.
pub open spec fn added_line(title: Seq<char>) -> Seq<char> {
    "Added item: "@ + title
}

/// The deletion policy: the ids that cannot be deleted.
pub open spec fn is_protected(user_id: u64) -> bool {
    user_id == 1
}

/// Why a protected user stays.
pub open spec fn protected_text() -> Seq<char> {
    "User cannot be deleted."@
}

/// The record that stands for a deleted user.
pub open spec fn deleted_user(user_id: u64) -> UserView {
    UserView { id: user_id as nat, name: "Deleted User"@, email: "some email"@ }
}

/// The response to a deletion that the policy turned down.
pub open spec fn delete_failure_reply(reason: Seq<char>) -> ResponseView {
    reply(500, Content::Text, "Failed to delete user: "@ + reason)
}

/// The two users that the service carries itself.
pub open spec fn fixed_users_spec() -> Seq<UserView> {
    seq![
        UserView { id: 1, name: "Alice"@, email: "alice@example.com"@ },
        UserView { id: 2, name: "Bob"@, email: "bob@example.com"@ },
    ]
}

/// The user that a row decodes to: each column that could not be read
/// becomes zero or the empty text.
pub open spec fn decode_row_spec(row: UserRow) -> UserView {
    UserView {
        id: match row.id {
            Some(id) => id as nat,
            None => 0,
        },
        name: match row.name {
            Some(name) => name@,
            None => Seq::empty(),
        },
        email: match row.email {
            Some(email) => email@,
            None => Seq::empty(),
        },
    }
}

/// The users that a sequence of rows decodes to, row by row.
pub open spec fn decode_rows_spec(rows: Seq<UserRow>) -> Seq<UserView> {
    Seq::new(rows.len(), |i: int| decode_row_spec(rows[i]))
}

/// What the read of the store gave, as the users it decodes to.
pub open spec fn decoded_outcome(outcome: Option<Vec<UserRow>>) -> Option<Seq<UserView>> {
    match outcome {
        Some(rows) => Some(decode_rows_spec(rows@)),
        None => None,
    }
}

/// The greeting of the root route.
pub fn root() -> (r: String)
    ensures
        r@ == greeting(),
{
    String::from_str("Hello, Rust!")
}

/// Confirms the creation of a user. Nothing is stored.
pub fn create_user() -> (r: Response)
    ensures
        r@ == created_reply(),
{
    Response::text(201, String::from_str("User created successfully"))
}

/// Shows an item on a page.
pub fn show_item(id: u32, page: Page) -> (r: String)
    ensures
        r@ == item_line(id as nat, page.number as nat),
{
    let mut out: String = String::from_str("Item ");
    let id_text: String = to_decimal(id as u64);
    out.append(id_text.as_str());
    out.append(" on page ");
    let number_text: String = to_decimal(page.number as u64);
    out.append(number_text.as_str());
    out
}

/// Confirms an added item. Nothing is stored.
pub fn add_item(item: Item) -> (r: String)
    ensures
        r@ == added_line(item.title@),
{
    let mut out: String = String::from_str("Added item: ");
    out.append(item.title.as_str());
    out
}

/// The deletion policy: a protected user is refused with the reason, any
/// other deletion succeeds. Nothing is stored.
pub fn perform_delete_user(user_id: u64) -> (r: Result<(), String>)
    ensures
        r is Err <==> is_protected(user_id),
        r matches Err(reason) ==> reason@ == protected_text(),
{
    if user_id == 1 {
        Err(String::from_str("User cannot be deleted."))
    } else {
        Ok(())
    }
}

/// Deletes a user: the record that stands for it, or the `500` response
/// that carries the policy's reason.
pub fn delete_user(user_id: u64) -> (r: Result<User, Response>)
    ensures
        match r {
            Ok(user) => !is_protected(user_id) && user@ == deleted_user(user_id),
            Err(response) => is_protected(user_id) && response@ == delete_failure_reply(
                protected_text(),
            ),
        },
{
    match perform_delete_user(user_id) {
        Ok(_) => Ok(
            User {
                id: user_id,
                name: String::from_str("Deleted User"),
                email: String::from_str("some email"),
            },
        ),
        Err(reason) => {
            let mut body: String = String::from_str("Failed to delete user: ");
            body.append(reason.as_str());
            Err(Response::text(500, body))
        },
    }
}

/// The two users that the service carries itself, in insertion order.
pub fn fixed_users() -> (r: Vec<User>)
    ensures
        users_view(r@) == fixed_users_spec(),
{
    let mut users: Vec<User> = Vec::new();
    users.push(
        User { id: 1, name: String::from_str("Alice"), email: String::from_str("alice@example.com") },
    );
    users.push(
        User { id: 2, name: String::from_str("Bob"), email: String::from_str("bob@example.com") },
    );
    assert(users_view(users@) =~= fixed_users_spec());
    users
}

/// Decodes one row, substituting zero or the empty text for each column
/// that could not be read. The decoding is lossy on purpose: a row never
/// fails the request, so a zero id or an empty text may stand for a value
/// that the store could not deliver.
pub fn decode_row(row: &UserRow) -> (r: User)
    ensures
        r@ == decode_row_spec(*row),
{
    let id: u64 = match row.id {
        Some(id) => id,
        None => 0,
    };
    let name: String = match &row.name {
        Some(name) => name.clone(),
        None => String::new(),
    };
    let email: String = match &row.email {
        Some(email) => email.clone(),
        None => String::new(),
    };
    User { id, name, email }
}

/// Decodes the rows of a read, in order.
pub fn decode_rows(rows: &Vec<UserRow>) -> (r: Vec<User>)
    ensures
        users_view(r@) == decode_rows_spec(rows@),
{
    let n: usize = rows.len();
    let mut users: Vec<User> = Vec::new();
    let mut i: usize = 0;
    while i < n
        invariant
            n == rows@.len(),
            i <= n,
            users@.len() == i,
            forall|k: int|
                0 <= k < i ==> (#[trigger] users@[k])@ == decode_row_spec(rows@[k]),
        decreases n - i,
    {
        let user: User = decode_row(&rows[i]);
        users.push(user);
        i += 1;
    }
    assert(users_view(users@) =~= decode_rows_spec(rows@));
    users
}

/// Lists the users that a read of the store gave: the decoded rows as a
/// JSON array, or the generic `500` where the read failed.
pub fn get_users(outcome: Option<Vec<UserRow>>) -> (r: Response)
    ensures
        r@ == users_reply(decoded_outcome(outcome)),
        outcome is None ==> r@ == failure_reply(),
{
    match outcome {
        Some(rows) => {
            let users: Vec<User> = decode_rows(&rows);
            Response::from_users(&users)
        },
        None => Response::failure(),
    }
}

/// Lists the users that the service carries itself.
pub fn list_fixed_users() -> (r: Response)
    ensures
        r@ == users_reply(Some(fixed_users_spec())),
{
    let users: Vec<User> = fixed_users();
    Response::from_users(&users)
}

} // verus!
