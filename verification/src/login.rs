//! Logging in: finding the user by name and checking the password.
use vstd::prelude::*;
use vstd::utf8::is_ascii_chars;

use crate::password::{bcrypt_verification, bcrypt_verify};
use crate::route_error::{
    error_unauthorized, spec_status_code, DbFailure, HttpFailure, RouteError, STATUS_NOT_FOUND,
    STATUS_UNAUTHORIZED,
};
use crate::user::{shows_user, User, UserDto};

verus! {

/// The body of a login request.
#[derive(Debug, Clone, PartialEq, Eq)]
pub struct LoginRequest {
    pub password: String,
    pub username: String,
}

/// The answer to a successful login: a token and the user it belongs to.
#[derive(Debug, Clone, PartialEq, Eq)]
pub struct LoginResponse {
    pub token: String,
    pub user: UserDto,
}

impl LoginResponse {
    /// The answer that hands `token` to `user`.
    pub fn new(token: String, user: User) -> (res: Self)
        ensures
            res.token == token,
            shows_user(res.user, user),
    {
        LoginResponse {
            user: UserDto {
                id: user.id,
                first_name: user.first_name,
                last_name: user.last_name,
                email: user.email,
                username: user.username,
            },
            token: token,
        }
    }
}

/// `i` is the first row of `rows` whose username is `name`.
pub open spec fn is_first_with_username(rows: Seq<User>, name: Seq<char>, i: int) -> bool {
    &&& 0 <= i < rows.len()
    &&& rows[i].username@ == name
    &&& forall|j: int| 0 <= j < i ==> #[trigger] rows[j].username@ != name
}

/// No row of `rows` has the username `name`.
pub open spec fn no_row_with_username(rows: Seq<User>, name: Seq<char>) -> bool {
    forall|j: int| 0 <= j < rows.len() ==> #[trigger] rows[j].username@ != name
}

/// The user named `name` in the outcome `query` of looking them up: the
/// first row with that username; a failed query gives its failure, and no
/// such row gives `NotFound`.
pub open spec fn spec_fetch_user(name: Seq<char>, query: Result<Seq<User>, DbFailure>) -> Result<
    User,
    RouteError,
> {
    match query {
        Err(f) => Err(RouteError::DbError(f)),
        Ok(rows) => if no_row_with_username(rows, name) {
            Err(RouteError::DbError(DbFailure::NotFound))
        } else {
            Ok(rows[choose|i: int| is_first_with_username(rows, name, i)])
        },
    }
}

/// The view of a query outcome.
pub open spec fn query_view(query: Result<Vec<User>, DbFailure>) -> Result<Seq<User>, DbFailure> {
    match query {
        Ok(rows) => Ok(rows@),
        Err(f) => Err(f),
    }
}

/// The refusal of a login whose password does not match.
pub open spec fn login_refused() -> RouteError {
    RouteError::RouteError(HttpFailure { status: STATUS_UNAUTHORIZED })
}

/// Whether `password` matches the stored bcrypt hash `hash`: a mismatch is
/// refused with 401, and a hash that cannot be checked, a non-ASCII one
/// among them, is a password hash error.
pub open spec fn spec_check_password(password: Seq<char>, hash: Seq<char>) -> Result<(), RouteError> {
    if !is_ascii_chars(hash) {
        Err(RouteError::BcryptError)
    } else {
        match bcrypt_verification(password, hash) {
            Some(true) => Ok(()),
            Some(false) => Err(login_refused()),
            None => Err(RouteError::BcryptError),
        }
    }
}

/// What a login gives: the user found by name, if the password matches
/// their hash.
pub open spec fn spec_authenticate(
    name: Seq<char>,
    password: Seq<char>,
    query: Result<Seq<User>, DbFailure>,
) -> Result<User, RouteError> {
    match spec_fetch_user(name, query) {
        Err(e) => Err(e),
        Ok(user) => match spec_check_password(password, user.password@) {
            Ok(()) => Ok(user),
            Err(e) => Err(e),
        },
    }
}

/// The index of the first row of `rows` whose username is `name`, if any.
fn find_username(rows: &Vec<User>, name: &String) -> (res: Option<usize>)
    ensures
        match res {
            Some(i) => is_first_with_username(rows@, name@, i as int),
            None => no_row_with_username(rows@, name@),
        },
{
    let mut i: usize = 0;
    while i < rows.len()
        invariant
            i <= rows.len(),
            forall|j: int| 0 <= j < i ==> #[trigger] rows@[j].username@ != name@,
        decreases rows.len() - i,
    {
        if rows[i].username == *name {
            return Some(i);
        }
        i += 1;
    }
    None
}

/// The user named `login_username`, found in `query`, the outcome of
/// looking them up by that name: see `spec_fetch_user`.
pub fn fetch_user(login_username: &String, query: Result<Vec<User>, DbFailure>) -> (res: Result<
    User,
    RouteError,
>)
    ensures
        res == spec_fetch_user(login_username@, query_view(query)),
{
    match query {
        Err(f) => Err(RouteError::DbError(f)),
        Ok(mut rows) => match find_username(&rows, login_username) {
            Some(i) => {
                let ghost old_rows = rows@;
                let user = rows.remove(i);
                proof {
                    let k = choose|k: int| is_first_with_username(old_rows, login_username@, k);
                    assert(k == i) by {
                        if k < i {
                            assert(old_rows[k].username@ != login_username@);
                        } else if k > i {
                            assert(old_rows[i as int].username@ != login_username@);
                        }
                    }
                }
                Ok(user)
            },
            None => Err(RouteError::DbError(DbFailure::NotFound)),
        },
    }
}

/// Whether `login_password` matches the password hash stored for `user`:
/// see `spec_check_password`.
pub fn check_password(login_password: &String, user: &User) -> (res: Result<(), RouteError>)
    ensures
        res == spec_check_password(login_password@, user.password@),
{
    if !user.password.as_str().is_ascii() {
        return Err(RouteError::BcryptError);
    }
    let verified = bcrypt_verify(login_password.as_str(), user.password.as_str());
    password_check_outcome(verified)
}

/// What checking a password gives, from what bcrypt answered: a match lets
/// the login through, a mismatch is refused with 401, and a failure of
/// bcrypt is a password hash error.
pub fn password_check_outcome(verified: Result<bool, bcrypt::BcryptError>) -> (res: Result<
    (),
    RouteError,
>)
    ensures
        match verified {
            Ok(true) => res == Ok::<(), RouteError>(()),
            Ok(false) => res == Err::<(), RouteError>(login_refused()),
            Err(_) => res == Err::<(), RouteError>(RouteError::BcryptError),
        },
{
    match verified {
        Ok(true) => Ok(()),
        Ok(false) => Err(RouteError::RouteError(error_unauthorized("Invalid username or password."))),
        Err(e) => Err(RouteError::from(e)),
    }
}

/// The decision of a login: the user named in `request`, found in `query`,
/// whose stored hash matches the password of `request`.
pub fn authenticate(request: &LoginRequest, query: Result<Vec<User>, DbFailure>) -> (res: Result<
    User,
    RouteError,
>)
    ensures
        res == spec_authenticate(request.username@, request.password@, query_view(query)),
{
    let user = match fetch_user(&request.username, query) {
        Ok(u) => u,
        Err(e) => return Err(e),
    };
    match check_password(&request.password, &user) {
        Ok(()) => Ok(user),
        Err(e) => Err(e),
    }
}

/// A login succeeds only for a user with the requested name whose stored
/// hash matches the given password.
pub proof fn lemma_login_needs_matching_password(
    name: Seq<char>,
    password: Seq<char>,
    query: Result<Seq<User>, DbFailure>,
)
    ensures
        spec_authenticate(name, password, query) matches Ok(user) ==> {
            &&& user.username@ == name
            &&& bcrypt_verification(password, user.password@) == Some(true)
        },
{
    if let Ok(rows) = query {
        if !no_row_with_username(rows, name) {
            let j = choose|j: int| 0 <= j < rows.len() && rows[j].username@ == name;
            lemma_first_username_exists(rows, name, j);
        }
    }
}

/// Where some row has the username `name`, there is a first such row.
proof fn lemma_first_username_exists(rows: Seq<User>, name: Seq<char>, j: int)
    requires
        0 <= j < rows.len(),
        rows[j].username@ == name,
    ensures
        exists|i: int| is_first_with_username(rows, name, i),
    decreases j,
{
    if exists|k: int| 0 <= k < j && #[trigger] rows[k].username@ == name {
        let k = choose|k: int| 0 <= k < j && #[trigger] rows[k].username@ == name;
        lemma_first_username_exists(rows, name, k);
    } else {
        assert(is_first_with_username(rows, name, j));
    }
}

/// A user who signed up with `password`, and whose row is the first one
/// with their name, logs in with that password: the password hash stored at
/// signup matches it.
pub proof fn lemma_signed_up_user_logs_in(
    name: Seq<char>,
    password: Seq<char>,
    rows: Seq<User>,
    i: int,
)
    requires
        is_first_with_username(rows, name, i),
        is_ascii_chars(rows[i].password@),
        bcrypt_verification(password, rows[i].password@) == Some(true),
    ensures
        spec_authenticate(name, password, Ok(rows)) == Ok::<User, RouteError>(rows[i]),
{
    let k = choose|k: int| is_first_with_username(rows, name, k);
    assert(k == i) by {
        if k < i {
            assert(rows[k].username@ != name);
        } else if k > i {
            assert(rows[i].username@ != name);
        }
    }
}

/// A login with a password that does not match the stored hash is answered
/// with 401 Unauthorized, and one for a name that no row has with 404 Not
/// Found.
pub proof fn lemma_refused_login_status(
    name: Seq<char>,
    password: Seq<char>,
    rows: Seq<User>,
)
    ensures
        no_row_with_username(rows, name) ==> (spec_authenticate(name, password, Ok(rows))
            matches Err(e) && spec_status_code(e) == STATUS_NOT_FOUND),
        !no_row_with_username(rows, name) && is_ascii_chars(
            spec_fetch_user(name, Ok(rows))->Ok_0.password@,
        ) && bcrypt_verification(password, spec_fetch_user(name, Ok(rows))->Ok_0.password@)
            == Some(false) ==> (spec_authenticate(name, password, Ok(rows)) matches Err(e)
            && spec_status_code(e) == STATUS_UNAUTHORIZED),
{
}

} // verus!
