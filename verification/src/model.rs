//! The data that travels through the pipeline, each type with its view.

use vstd::prelude::*;

verus! {

/// The request methods that the routes tell apart.
#[derive(Clone, Copy, Debug, PartialEq, Eq, Structural)]
pub enum Method {
    Get,
    Post,
    Delete,
    Other,
}

/// The endpoints of the service.
#[derive(Clone, Copy, Debug, PartialEq, Eq, Structural)]
pub enum Route {
    Root,
    CreateUser,
    ShowItem,
    AddItem,
    DeleteUser,
    ListUsers,
}

/// Where the user list comes from.
#[derive(Clone, Copy, Debug, PartialEq, Eq, Structural)]
pub enum UserSource {
    /// The two records that the service carries itself.
    Fixed,
    /// The `users` relation of the data store.
    Store,
}

/// Which part of a request an extractor turned down.
#[derive(Clone, Copy, Debug, PartialEq, Eq, Structural)]
pub enum Rejection {
    Path,
    Query,
    Body,
}

/// How a response body is to be read.
#[derive(Clone, Copy, Debug, PartialEq, Eq, Structural)]
pub enum Content {
    Empty,
    Text,
    Json,
}

/// The query parameters of the item page.
#[derive(Clone, Copy, Debug, PartialEq, Eq, Structural)]
pub struct Page {
    pub number: u32,
}

/// An item as a client sends it.
#[derive(Clone, Debug)]
pub struct Item {
    pub title: String,
}

/// A user record.
#[derive(Clone, Debug)]
pub struct User {
    pub id: u64,
    pub name: String,
    pub email: String,
}

/// A user record as a value of the mathematical model.
pub struct UserView {
    pub id: nat,
    pub name: Seq<char>,
    pub email: Seq<char>,
}

impl View for User {
    type V = UserView;

    open spec fn view(&self) -> UserView {
        UserView { id: self.id as nat, name: self.name@, email: self.email@ }
    }
}

/// One row of the `users` relation: for each column the value read, or
/// `None` where the column was missing or of another type.
#[derive(Clone, Debug)]
pub struct UserRow {
    pub id: Option<u64>,
    pub name: Option<String>,
    pub email: Option<String>,
}

/// A status code with a body.
#[derive(Clone, Debug)]
pub struct Response {
    pub status: u16,
    pub content: Content,
    pub body: String,
}

/// A response as a value of the mathematical model.
pub struct ResponseView {
    pub status: u16,
    pub content: Content,
    pub body: Seq<char>,
}

impl View for Response {
    type V = ResponseView;

    open spec fn view(&self) -> ResponseView {
        ResponseView { status: self.status, content: self.content, body: self.body@ }
    }
}

/// The models of the records in `users`, in order.
pub open spec fn users_view(users: Seq<User>) -> Seq<UserView> {
    Seq::new(users.len(), |i: int| users[i]@)
}

} // verus!
