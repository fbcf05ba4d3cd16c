//! Users as the database stores them, as the routes show them, and the
//! user that a login token authenticates.
use vstd::prelude::*;

use crate::claims::LoginClaims;
use crate::route_error::{DbFailure, RouteError};

verus! {

/// A row of the users table.
#[derive(Debug, Clone, PartialEq, Eq)]
pub struct User {
    pub id: u128,
    pub first_name: String,
    pub last_name: String,
    pub email: String,
    pub username: String,
    /// The bcrypt hash of the user's password.
    pub password: String,
}

/// A user as the routes show it: everything but the password hash.
#[derive(Debug, Clone, PartialEq, Eq)]
pub struct UserDto {
    pub id: u128,
    pub first_name: String,
    pub last_name: String,
    pub email: String,
    pub username: String,
}

/// `dto` shows `user`: the same id and names, no password.
pub open spec fn shows_user(dto: UserDto, user: User) -> bool {
    &&& dto.id == user.id
    &&& dto.first_name == user.first_name
    &&& dto.last_name == user.last_name
    &&& dto.email == user.email
    &&& dto.username == user.username
}

impl UserDto {
    /// The user as the routes show it.
    pub fn new(user: User) -> (res: Self)
        ensures
            shows_user(res, user),
    {
        UserDto {
            id: user.id,
            first_name: user.first_name,
            last_name: user.last_name,
            email: user.email,
            username: user.username,
        }
    }
}

/// `i` is the first row of `rows` whose id is `id`.
pub open spec fn is_first_with_id(rows: Seq<User>, id: u128, i: int) -> bool {
    &&& 0 <= i < rows.len()
    &&& rows[i].id == id
    &&& forall|j: int| 0 <= j < i ==> #[trigger] rows[j].id != id
}

/// No row of `rows` has the id `id`.
pub open spec fn no_row_with_id(rows: Seq<User>, id: u128) -> bool {
    forall|j: int| 0 <= j < rows.len() ==> #[trigger] rows[j].id != id
}

/// The index of the first row of `rows` whose id is `id`, if any.
fn find_id(rows: &Vec<User>, id: u128) -> (res: Option<usize>)
    ensures
        match res {
            Some(i) => is_first_with_id(rows@, id, i as int),
            None => no_row_with_id(rows@, id),
        },
{
    let mut i: usize = 0;
    while i < rows.len()
        invariant
            i <= rows.len(),
            forall|j: int| 0 <= j < i ==> #[trigger] rows@[j].id != id,
        decreases rows.len() - i,
    {
        if rows[i].id == id {
            return Some(i);
        }
        i += 1;
    }
    None
}

/// The user that a login token authenticates.
#[derive(Debug, Clone, PartialEq, Eq)]
pub struct UserPrincipal {
    pub user: UserDto,
}

impl UserPrincipal {
    /// The principal of the user whose id the login claims carry, found in
    /// `query`, the outcome of looking the user up by that id: the first row
    /// with that id. A failed query gives its failure, and no row with the
    /// id gives `NotFound`.
    pub fn try_new(claims: &LoginClaims, query: Result<Vec<User>, DbFailure>) -> (res: Result<
        Self,
        RouteError,
    >)
        ensures
            match query {
                Err(f) => res == Err::<Self, RouteError>(RouteError::DbError(f)),
                Ok(rows) => match res {
                    Ok(p) => exists|i: int|
                        is_first_with_id(rows@, claims.id, i) && shows_user(p.user, rows@[i]),
                    Err(e) => no_row_with_id(rows@, claims.id) && e == RouteError::DbError(
                        DbFailure::NotFound,
                    ),
                },
            },
    {
        match query {
            Err(f) => Err(RouteError::DbError(f)),
            Ok(mut rows) => match find_id(&rows, claims.id) {
                Some(i) => {
                    let ghost old_rows = rows@;
                    let user = rows.remove(i);
                    let p = UserPrincipal { user: UserDto::new(user) };
                    assert(is_first_with_id(old_rows, claims.id, i as int));
                    Ok(p)
                },
                None => Err(RouteError::DbError(DbFailure::NotFound)),
            },
        }
    }
}

} // verus!
