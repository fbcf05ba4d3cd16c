//! The claims that the service signs into its bearer tokens.
use vstd::prelude::*;

use crate::time::Timestamp;

verus! {

/// Claims of a login token: the id of the user who logged in.
#[derive(Debug, Clone, Copy, PartialEq, Eq, Structural)]
pub struct LoginClaims {
    pub id: u128,
}

/// Claims of a signup token: the id of the user who signed up.
#[derive(Debug, Clone, Copy, PartialEq, Eq, Structural)]
pub struct SignupClaims {
    pub id: u128,
}

/// What a token carries: its kind, the claims of that kind and the instant
/// at which it expires.
#[derive(Debug, Clone, Copy, PartialEq, Eq, Structural)]
pub enum Claim {
    Singup { claims: SignupClaims, exp: Timestamp },
    Login { claims: LoginClaims, exp: Timestamp },
}

} // verus!
