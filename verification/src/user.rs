//! Request shapes of the account surface.

use vstd::prelude::*;

verus! {

/// Request body for registering an account.
#[derive(Debug)]
pub struct CreateUserRequest {
    pub username: String,
    pub email: String,
    pub password: String,
}

/// Request body for logging in.
#[derive(Debug)]
pub struct LoginRequest {
    pub username: String,
    pub password: String,
}

} // verus!
