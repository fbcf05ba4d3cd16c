//! Signing up: the new user's password is stored only as a bcrypt hash.
use vstd::prelude::*;
use vstd::utf8::is_ascii_chars;

use crate::login::spec_check_password;
use crate::password::{
    bcrypt_hash, bcrypt_verification, is_bcrypt_hash_text, lemma_bcrypt_hash_text_is_ascii,
    PASSWORD_HASH_COST,
};
use crate::route_error::RouteError;

verus! {

/// The body of a signup request, and the row that it inserts.
#[derive(Debug, Clone, PartialEq, Eq)]
pub struct Signup {
    pub first_name: String,
    pub last_name: String,
    pub email: String,
    pub username: String,
    pub password: String,
}

/// The signup to insert once its password has been hashed, from `hashed`,
/// the outcome of hashing it.
pub open spec fn spec_store_password_hash(
    new_user: Signup,
    hashed: Result<String, bcrypt::BcryptError>,
) -> Result<Signup, RouteError> {
    match hashed {
        Ok(h) => Ok(Signup { password: h, ..new_user }),
        Err(_) => Err(RouteError::BcryptError),
    }
}

/// The signup to insert once its password has been hashed: `hashed` is the
/// outcome of hashing it. A hash replaces the password and keeps every other
/// field; a failure of hashing is a password hash error.
pub fn store_password_hash(new_user: Signup, hashed: Result<String, bcrypt::BcryptError>) -> (res:
    Result<Signup, RouteError>)
    ensures
        match hashed {
            Ok(h) => res == Ok::<Signup, RouteError>(
                Signup {
                    first_name: new_user.first_name,
                    last_name: new_user.last_name,
                    email: new_user.email,
                    username: new_user.username,
                    password: h,
                },
            ),
            Err(_) => res == Err::<Signup, RouteError>(RouteError::BcryptError),
        },
        res == spec_store_password_hash(new_user, hashed),
{
    let mut new_user = new_user;
    match hashed {
        Ok(h) => {
            new_user.password = h;
            Ok(new_user)
        },
        Err(e) => Err(RouteError::from(e)),
    }
}

/// `hashed` is an outcome that hashing `password` at `PASSWORD_HASH_COST`
/// can have: a password with a NUL character is refused, and a hash is a
/// version 2b bcrypt text of that cost, ASCII, against which the password
/// checks out.
pub open spec fn is_hash_outcome(password: Seq<char>, hashed: Result<String, bcrypt::BcryptError>) -> bool {
    &&& password.contains('\0') ==> hashed is Err
    &&& hashed matches Ok(h) ==> {
        &&& is_bcrypt_hash_text(h@, PASSWORD_HASH_COST)
        &&& is_ascii_chars(h@)
        &&& bcrypt_verification(password, h@) == Some(true)
    }
}

/// The signup with its password replaced by a bcrypt hash of it at
/// `PASSWORD_HASH_COST`, ready to be inserted. The other fields are kept;
/// the hash is a version 2b bcrypt text of that cost, and one against which
/// the password checks out at login. A password with a NUL character cannot
/// be hashed, and every failure of hashing is a password hash error.
pub fn hash_new_user_password(new_user: Signup) -> (res: Result<Signup, RouteError>)
    ensures
        match res {
            Ok(s) => {
                &&& s.first_name == new_user.first_name
                &&& s.last_name == new_user.last_name
                &&& s.email == new_user.email
                &&& s.username == new_user.username
                &&& is_bcrypt_hash_text(s.password@, PASSWORD_HASH_COST)
                &&& bcrypt_verification(new_user.password@, s.password@) == Some(true)
                &&& spec_check_password(new_user.password@, s.password@) == Ok::<(), RouteError>(())
            },
            Err(e) => e == RouteError::BcryptError,
        },
        new_user.password@.contains('\0') ==> res == Err::<Signup, RouteError>(
            RouteError::BcryptError,
        ),
        exists|hashed: Result<String, bcrypt::BcryptError>|
            #[trigger] is_hash_outcome(new_user.password@, hashed) && res
                == spec_store_password_hash(new_user, hashed),
{
    let hashed = bcrypt_hash(new_user.password.as_str(), PASSWORD_HASH_COST);
    proof {
        if hashed is Ok {
            lemma_bcrypt_hash_text_is_ascii(hashed->Ok_0@, PASSWORD_HASH_COST);
        }
    }
    proof {
        assert(is_hash_outcome(new_user.password@, hashed));
    }
    store_password_hash(new_user, hashed)
}

/// A signup fails only where hashing its password fails: for every outcome
/// of hashing, a hash gives the signup with that hash in place of the
/// password and every other field kept, and only a failed hashing gives an
/// error, a password hash error.
pub proof fn lemma_signup_fails_only_when_hashing_fails(
    new_user: Signup,
    hashed: Result<String, bcrypt::BcryptError>,
)
    ensures
        hashed is Ok <==> spec_store_password_hash(new_user, hashed) is Ok,
        spec_store_password_hash(new_user, hashed) matches Ok(s) ==> {
            &&& s.password == hashed->Ok_0
            &&& s.first_name == new_user.first_name
            &&& s.last_name == new_user.last_name
            &&& s.email == new_user.email
            &&& s.username == new_user.username
        },
        hashed is Err ==> spec_store_password_hash(new_user, hashed) == Err::<Signup, RouteError>(
            RouteError::BcryptError,
        ),
{
}

} // verus!
