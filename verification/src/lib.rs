//! A client library for the Asana REST API.
//!
//! The heart of the crate is the response envelope: every Asana reply is a
//! JSON object with optional `data` and `errors` keys, and the [`Response`]
//! type parses that envelope and offers typed extraction of its payload.
//! Endpoint path builders for the user resources live in [`users`].

pub mod json;
pub mod response;
pub mod schema;
pub mod users;

pub use json::JsonValue;
pub use response::Response;
