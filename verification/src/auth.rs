//! The claims carried by a session token. Issuing and verifying tokens is
//! an outside concern of the binary around this library.

use vstd::prelude::*;

verus! {

/// The claims of an authenticated session: subject, display name, and the
/// expiry and issue instants in seconds.
#[derive(Debug)]
pub struct Claims {
    pub sub: String,
    pub username: String,
    pub exp: usize,
    pub iat: usize,
}

} // verus!
