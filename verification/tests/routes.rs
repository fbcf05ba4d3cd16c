use auth_api::claims::LoginClaims;
use auth_api::login::{authenticate, check_password, fetch_user, LoginRequest, LoginResponse};
use auth_api::route_error::{DbFailure, HttpFailure, RouteError};
use auth_api::signup::{hash_new_user_password, Signup};
use auth_api::user::{User, UserDto, UserPrincipal};

const PASSWORD_HASH: &str = "$2b$04$EGdrhbKUv8Oc9vGiXX0HQOxSg445d458Muh7DAHskb6QbtCvdxcie";
const PASSWORD: &str = "correctbatteryhorsestapler";

fn user(id: u128, username: &str, password: &str) -> User {
    User {
        id,
        first_name: format!("first{}", id),
        last_name: format!("last{}", id),
        email: format!("{}@example.com", username),
        username: username.to_string(),
        password: password.to_string(),
    }
}

fn dto(u: &User) -> UserDto {
    UserDto {
        id: u.id,
        first_name: u.first_name.clone(),
        last_name: u.last_name.clone(),
        email: u.email.clone(),
        username: u.username.clone(),
    }
}

#[test]
fn status_codes_of_route_errors() {
    assert_eq!(RouteError::PoolError.status_code(), 500);
    assert_eq!(RouteError::DbError(DbFailure::NotFound).status_code(), 404);
    assert_eq!(RouteError::DbError(DbFailure::UniqueViolation).status_code(), 409);
    assert_eq!(RouteError::DbError(DbFailure::Other).status_code(), 500);
    assert_eq!(RouteError::BcryptError.status_code(), 500);
    assert_eq!(RouteError::RouteError(HttpFailure { status: 418 }).status_code(), 418);
}

#[test]
fn descriptions_of_route_errors() {
    assert_eq!(RouteError::PoolError.description(), "Database Connection Pool Error");
    assert_eq!(RouteError::DbError(DbFailure::Other).description(), "Database Error");
    assert_eq!(RouteError::BcryptError.description(), "Password Hash Error");
    assert_eq!(
        RouteError::RouteError(HttpFailure { status: 401 }).description(),
        "Generic Route Error"
    );
}

#[test]
fn bcrypt_errors_become_hash_errors() {
    assert_eq!(RouteError::from(bcrypt::BcryptError::InvalidPassword), RouteError::BcryptError);
}

#[test]
fn user_dto_drops_the_password() {
    let u = user(3, "ann", "hash");
    assert_eq!(UserDto::new(u.clone()), dto(&u));
}

#[test]
fn login_response_carries_token_and_user() {
    let u = user(4, "bob", "hash");
    let r = LoginResponse::new("tok".to_string(), u.clone());
    assert_eq!(r, LoginResponse { token: "tok".to_string(), user: dto(&u) });
}

#[test]
fn fetch_user_finds_first_match() {
    let rows = vec![user(1, "ann", "h1"), user(2, "bob", "h2"), user(3, "bob", "h3")];
    assert_eq!(fetch_user(&"bob".to_string(), Ok(rows.clone())), Ok(rows[1].clone()));
    assert_eq!(fetch_user(&"ann".to_string(), Ok(rows.clone())), Ok(rows[0].clone()));
}

#[test]
fn fetch_user_missing_is_not_found() {
    let rows = vec![user(1, "ann", "h1")];
    assert_eq!(
        fetch_user(&"carl".to_string(), Ok(rows)),
        Err(RouteError::DbError(DbFailure::NotFound))
    );
    assert_eq!(
        fetch_user(&"carl".to_string(), Ok(vec![])),
        Err(RouteError::DbError(DbFailure::NotFound))
    );
}

#[test]
fn fetch_user_passes_query_failure() {
    assert_eq!(
        fetch_user(&"ann".to_string(), Err(DbFailure::Other)),
        Err(RouteError::DbError(DbFailure::Other))
    );
}

#[test]
fn check_password_matches_known_hash() {
    let u = user(1, "ann", PASSWORD_HASH);
    assert_eq!(check_password(&PASSWORD.to_string(), &u), Ok(()));
}

#[test]
fn check_password_wrong_is_unauthorized() {
    let u = user(1, "ann", PASSWORD_HASH);
    let res = check_password(&"wrong".to_string(), &u);
    assert_eq!(res, Err(RouteError::RouteError(HttpFailure { status: 401 })));
    assert_eq!(res.unwrap_err().status_code(), 401);
}

#[test]
fn check_password_bad_hash_is_hash_error() {
    let u = user(1, "ann", "$2a$04$n4Uy0eSnMfvnESYL.bLwuuj0U/ETSsoTpRT9GVk$5bektyVVa5xnIi");
    assert_eq!(check_password(&PASSWORD.to_string(), &u), Err(RouteError::BcryptError));
    let multibyte = format!("$2b$04${}é{}", "A".repeat(21), "A".repeat(30));
    let u = user(1, "ann", &multibyte);
    assert_eq!(check_password(&PASSWORD.to_string(), &u), Err(RouteError::BcryptError));
    let plain = user(1, "ann", "not a hash");
    assert_eq!(check_password(&PASSWORD.to_string(), &plain), Err(RouteError::BcryptError));
}

#[test]
fn authenticate_cases() {
    let rows = vec![user(1, "ann", PASSWORD_HASH), user(2, "bob", "broken")];
    let ok = LoginRequest { username: "ann".to_string(), password: PASSWORD.to_string() };
    assert_eq!(authenticate(&ok, Ok(rows.clone())), Ok(rows[0].clone()));
    let wrong = LoginRequest { username: "ann".to_string(), password: "nope".to_string() };
    assert_eq!(
        authenticate(&wrong, Ok(rows.clone())),
        Err(RouteError::RouteError(HttpFailure { status: 401 }))
    );
    let unknown = LoginRequest { username: "zed".to_string(), password: PASSWORD.to_string() };
    assert_eq!(
        authenticate(&unknown, Ok(rows.clone())).map_err(|e| e.status_code()),
        Err(404)
    );
    let broken = LoginRequest { username: "bob".to_string(), password: PASSWORD.to_string() };
    assert_eq!(authenticate(&broken, Ok(rows)), Err(RouteError::BcryptError));
    assert_eq!(authenticate(&ok, Err(DbFailure::Other)), Err(RouteError::DbError(DbFailure::Other)));
}

#[test]
fn signup_then_login_succeeds() {
    let signup = Signup {
        first_name: "Ann".to_string(),
        last_name: "Lee".to_string(),
        email: "ann@example.com".to_string(),
        username: "ann".to_string(),
        password: "s3cret pass".to_string(),
    };
    let stored = hash_new_user_password(signup.clone()).unwrap();
    assert_eq!(stored.first_name, signup.first_name);
    assert_eq!(stored.last_name, signup.last_name);
    assert_eq!(stored.email, signup.email);
    assert_eq!(stored.username, signup.username);
    assert_ne!(stored.password, signup.password);
    assert!(stored.password.starts_with("$2b$12$"));
    assert_eq!(stored.password.len(), 60);
    let row = User {
        id: 9,
        first_name: stored.first_name.clone(),
        last_name: stored.last_name.clone(),
        email: stored.email.clone(),
        username: stored.username.clone(),
        password: stored.password.clone(),
    };
    let req = LoginRequest { username: "ann".to_string(), password: "s3cret pass".to_string() };
    assert_eq!(authenticate(&req, Ok(vec![row.clone()])), Ok(row));
}

#[test]
fn signup_password_with_nul_is_refused() {
    let signup = Signup {
        first_name: "A".to_string(),
        last_name: "B".to_string(),
        email: "c".to_string(),
        username: "d".to_string(),
        password: "bad\0pass".to_string(),
    };
    assert_eq!(hash_new_user_password(signup), Err(RouteError::BcryptError));
}

#[test]
fn principal_for_claims() {
    let rows = vec![user(5, "ann", "h"), user(6, "bob", "h")];
    let claims = LoginClaims { id: 6 };
    assert_eq!(
        UserPrincipal::try_new(&claims, Ok(rows.clone())),
        Ok(UserPrincipal { user: dto(&rows[1]) })
    );
    assert_eq!(
        UserPrincipal::try_new(&LoginClaims { id: 7 }, Ok(rows)),
        Err(RouteError::DbError(DbFailure::NotFound))
    );
    assert_eq!(
        UserPrincipal::try_new(&claims, Err(DbFailure::Other)),
        Err(RouteError::DbError(DbFailure::Other))
    );
}
