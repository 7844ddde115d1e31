//! The records the service stores and exchanges, and the HTTP statuses it answers with.

use vstd::prelude::*;
use crate::object_id::ObjectId;

verus! {

/// A stored account.
#[derive(Debug)]
pub struct User {
    pub id: ObjectId,
    pub email: String,
    pub first_name: String,
    pub last_name: String,
    pub password_hash: String,
}

/// The body of an account-creation request.
#[derive(Debug)]
pub struct NewUser {
    pub id: Option<ObjectId>,
    pub email: String,
    pub first_name: String,
    pub last_name: String,
    pub password: String,
}

/// A to-do list.
#[derive(Debug)]
pub struct TodoList {
    pub id: Option<ObjectId>,
    pub title: String,
    pub owner_id: Option<ObjectId>,
}

/// An item of a to-do list.
#[derive(Debug)]
pub struct TodoItem {
    pub id: Option<ObjectId>,
    pub title: String,
    pub description: String,
    pub completed: bool,
    pub owner_id: Option<ObjectId>,
    pub list_id: Option<ObjectId>,
}

/// The query string of the item endpoints.
#[derive(Clone, Copy, Debug)]
pub struct TodoQuery {
    pub list: Option<ObjectId>,
    pub id: Option<ObjectId>,
}

/// The query string of list removal.
#[derive(Clone, Copy, Debug)]
pub struct ListQuery {
    pub id: ObjectId,
}

/// The body of a login request.
#[derive(Debug)]
pub struct LoginQuery {
    pub email: String,
    pub password: String,
}

/// The claims of a session token: the user's id in hexadecimal, and the expiry
/// as seconds since the epoch.
#[derive(Debug)]
pub struct Claims {
    pub sub: String,
    pub exp: usize,
}

/// The reply to a successful login.
#[derive(Debug)]
pub struct AuthResponse {
    pub token: String,
}

/// The HTTP statuses the service answers with.
#[derive(Clone, Copy, Debug, PartialEq, Eq, Structural)]
pub enum Status {
    /// 200 OK.
    Success,
    Created,
    BadRequest,
    Unauthorized,
    NotFound,
    InternalServerError,
}

impl Status {
    /// The numeric HTTP status code.
    pub open spec fn code_of(self) -> u16 {
        match self {
            Status::Success => 200,
            Status::Created => 201,
            Status::BadRequest => 400,
            Status::Unauthorized => 401,
            Status::NotFound => 404,
            Status::InternalServerError => 500,
        }
    }

    /// The numeric HTTP status code.
    pub fn code(&self) -> (c: u16)
        ensures
            c == self.code_of(),
    {
        match self {
            Status::Success => 200,
            Status::Created => 201,
            Status::BadRequest => 400,
            Status::Unauthorized => 401,
            Status::NotFound => 404,
            Status::InternalServerError => 500,
        }
    }
}

} // verus!
