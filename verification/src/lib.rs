//! Request handling logic of a small to-do list web service: password
//! hashing, bearer-token extraction, object ids, and the store requests and
//! replies of every endpoint.

pub mod auth;
pub mod handlers;
pub mod model;
pub mod object_id;
pub mod store;
