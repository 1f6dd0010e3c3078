//! The request pipeline of a small HTTP service for users and items:
//! route matching, typed extraction, handlers and response building,
//! each with a contract over plain sequences of characters.

pub mod extract;
pub mod handlers;
pub mod json;
pub mod laws;
pub mod model;
pub mod response;
pub mod router;
pub mod text;
