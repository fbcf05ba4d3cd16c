use auth_api::jwt_auth::{accept_token, AuthError};
use auth_api::login::password_check_outcome;
use auth_api::route_error::{HttpFailure, RouteError};
use auth_api::signup::{store_password_hash, Signup};
use auth_api::token::{join_token, JwtAlgorithm};

fn signup(password: &str) -> Signup {
    Signup {
        first_name: "Ann".to_string(),
        last_name: "Lee".to_string(),
        email: "ann@example.com".to_string(),
        username: "ann".to_string(),
        password: password.to_string(),
    }
}

#[test]
fn join_token_joins_with_dots() {
    assert_eq!(join_token("h", "c", "s"), "h.c.s");
    assert_eq!(join_token("", "", ""), "..");
}

#[test]
fn accept_token_needs_all_three_checks() {
    let p = vec![1u8, 2, 3];
    let hs = JwtAlgorithm::Hs256;
    assert_eq!(accept_token(Ok(hs), Some(p.clone()), Ok(true)), Ok(p.clone()));
    assert_eq!(
        accept_token(Ok(JwtAlgorithm::Hs384), Some(p.clone()), Ok(true)),
        Err(AuthError::InvalidToken)
    );
    assert_eq!(
        accept_token(Ok(JwtAlgorithm::NoSignature), Some(p.clone()), Ok(true)),
        Err(AuthError::InvalidToken)
    );
    assert_eq!(
        accept_token(Err(jwt::Error::Format), Some(p.clone()), Ok(true)),
        Err(AuthError::InvalidToken)
    );
    assert_eq!(accept_token(Ok(hs), None, Ok(true)), Err(AuthError::InvalidToken));
    assert_eq!(accept_token(Ok(hs), Some(p.clone()), Ok(false)), Err(AuthError::InvalidToken));
    assert_eq!(
        accept_token(Ok(hs), Some(p), Err(jwt::Error::InvalidSignature)),
        Err(AuthError::InvalidToken)
    );
}

#[test]
fn password_check_outcomes() {
    assert_eq!(password_check_outcome(Ok(true)), Ok(()));
    assert_eq!(
        password_check_outcome(Ok(false)),
        Err(RouteError::RouteError(HttpFailure { status: 401 }))
    );
    assert_eq!(
        password_check_outcome(Err(bcrypt::BcryptError::InvalidPassword)),
        Err(RouteError::BcryptError)
    );
}

#[test]
fn store_password_hash_outcomes() {
    assert_eq!(
        store_password_hash(signup("plain"), Ok("$2b$hash".to_string())),
        Ok(signup("$2b$hash"))
    );
    assert_eq!(
        store_password_hash(signup("plain"), Err(bcrypt::BcryptError::InvalidPassword)),
        Err(RouteError::BcryptError)
    );
}
