use vstd::prelude::*;

verus! {

/// A user record of the remote API. `id` is absent for a user not yet saved;
/// the server assigns it.
#[derive(Clone, Debug)]
pub struct User {
    pub id: Option<i32>,
    pub name: String,
    pub email: String,
    pub age: i32,
}

/// The credentials sent to the authentication endpoint.
#[derive(Clone, Debug)]
pub struct LoginRequest {
    pub username: String,
    pub password: String,
}

/// The envelope that the remote API wraps around every payload.
#[derive(Clone, Debug)]
pub struct ApiResponse<T> {
    pub success: bool,
    pub message: String,
    pub data: Option<T>,
    pub code: i32,
}

} // verus!
