//! Verified core of a small account service: it issues and checks signed
//! bearer tokens, hashes and checks passwords, looks users up in query
//! results and maps every failure to an HTTP status.
#![allow(unused_imports)]

use vstd::prelude::*;

pub mod claims;
pub mod jwt_auth;
pub mod login;
pub mod password;
pub mod route_error;
pub mod signup;
pub mod time;
pub mod token;
pub mod user;
