//! Issuing and checking the bearer tokens of logged-in users.
use vstd::prelude::*;

use crate::claims::{Claim, LoginClaims};
use crate::route_error::STATUS_UNAUTHORIZED;
use crate::time::{
    instant_from_clock, is_before, is_clock_instant, is_clock_reading,
    lemma_is_before_is_chronological, one_day_after, spec_instant_from_clock, spec_is_before,
    spec_one_day_after, system_clock_since_epoch, utc_now, Timestamp,
    MAX_TIMESTAMP_SECS, SECS_PER_DAY,
};
use crate::token::{
    accepted_payload, base64url_decode, base64url_encode, base64url_encoding, encode_header,
    header_algorithm, header_json, hs256_sign, hs256_verify, join_token, lemma_join_then_split,
    lemma_split_unique, read_header_algorithm, signed_token, split_token, token_segments,
    JwtAlgorithm, HMAC_SHA256_ALGORITHM,
};

verus! {

/// Why a bearer token was refused.
#[derive(Debug, Clone, Copy, PartialEq, Eq, Structural)]
pub enum AuthError {
    /// The token is malformed, not signed with this service's secret, or not
    /// a login token.
    InvalidToken,
    /// The token was valid but has expired.
    ExpiredToken,
}

impl AuthError {
    /// A refused token is answered with 401 Unauthorized.
    pub fn status_code(&self) -> (res: u16)
        ensures
            res == STATUS_UNAUTHORIZED,
    {
        STATUS_UNAUTHORIZED
    }

    /// The text shown for the error.
    pub fn description(&self) -> (res: &'static str)
        ensures
            *self == AuthError::InvalidToken ==> res@ == "Invalid Token"@,
            *self == AuthError::ExpiredToken ==> res@ == "Expired Token"@,
    {
        match self {
            AuthError::InvalidToken => "Invalid Token",
            AuthError::ExpiredToken => "Expired Token",
        }
    }
}

/// Any failure of the `jwt` crate makes a token invalid.
impl From<jwt::Error> for AuthError {
    fn from(_e: jwt::Error) -> (res: Self) {
        AuthError::InvalidToken
    }
}

impl vstd::std_specs::convert::FromSpecImpl<jwt::Error> for AuthError {
    open spec fn obeys_from_spec() -> bool {
        true
    }

    open spec fn from_spec(v: jwt::Error) -> Self {
        AuthError::InvalidToken
    }
}

/// Whether a token that expires at `exp` is still valid at `now`: it is
/// until `now` reaches `exp`.
pub open spec fn spec_check_exp(exp: Timestamp, now: Timestamp) -> Result<(), AuthError> {
    if spec_is_before(now, exp) {
        Ok(())
    } else {
        Err(AuthError::ExpiredToken)
    }
}

/// Whether a token that expires at `exp` is still valid at `now`.
pub fn check_exp(exp: &Timestamp, now: Timestamp) -> (res: Result<(), AuthError>)
    ensures
        res == spec_check_exp(*exp, now),
{
    if is_before(now, *exp) {
        Ok(())
    } else {
        Err(AuthError::ExpiredToken)
    }
}

/// What a verified claim gives at `now`: the login claims of a login claim
/// that has not expired; `ExpiredToken` for one that has; `InvalidToken`
/// for a claim of another kind.
pub open spec fn spec_login_at(claim: Claim, now: Timestamp) -> Result<LoginClaims, AuthError> {
    match claim {
        Claim::Login { claims, exp } => match spec_check_exp(exp, now) {
            Ok(_) => Ok(claims),
            Err(e) => Err(e),
        },
        Claim::Singup { .. } => Err(AuthError::InvalidToken),
    }
}

/// The login claim issued at `now` for `claims`: it expires one day later.
pub open spec fn spec_login_claim_at(claims: LoginClaims, now: Timestamp) -> Claim {
    Claim::Login { claims, exp: spec_one_day_after(now) }
}

/// What a verified claim gives at `now`.
pub fn login_at(claim: &Claim, now: Timestamp) -> (res: Result<LoginClaims, AuthError>)
    ensures
        res == spec_login_at(*claim, now),
{
    match claim {
        Claim::Login { claims, exp } => match check_exp(exp, now) {
            Ok(()) => Ok(*claims),
            Err(e) => Err(e),
        },
        Claim::Singup { .. } => Err(AuthError::InvalidToken),
    }
}

/// The login claim issued at `now` for `claims`; the calendar must hold the
/// instant one day after `now`.
pub fn login_claim_at(claims: &LoginClaims, now: Timestamp) -> (res: Claim)
    requires
        now.secs + SECS_PER_DAY <= MAX_TIMESTAMP_SECS,
    ensures
        res == spec_login_claim_at(*claims, now),
{
    Claim::Login { claims: *claims, exp: one_day_after(now) }
}

/// Whether a token is accepted, from what reading its segments gave: the
/// header must name the algorithm of the HMAC-SHA256 key, the payload
/// segment must decode and the signature must be accepted; then the token
/// carries the decoded payload. Anything else makes it `InvalidToken`.
pub fn accept_token(
    header_check: Result<JwtAlgorithm, jwt::Error>,
    payload: Option<Vec<u8>>,
    signature_check: Result<bool, jwt::Error>,
) -> (res: Result<Vec<u8>, AuthError>)
    ensures
        match (header_check, payload, signature_check) {
            (Ok(JwtAlgorithm::Hs256), Some(p), Ok(true)) => res == Ok::<Vec<u8>, AuthError>(p),
            _ => res == Err::<Vec<u8>, AuthError>(AuthError::InvalidToken),
        },
{
    let algorithm = match header_check {
        Ok(a) => a,
        Err(e) => return Err(AuthError::from(e)),
    };
    let payload = match payload {
        Some(p) => p,
        None => return Err(AuthError::InvalidToken),
    };
    if algorithm != HMAC_SHA256_ALGORITHM {
        return Err(AuthError::InvalidToken);
    }
    match signature_check {
        Ok(true) => Ok(payload),
        Ok(false) => Err(AuthError::InvalidToken),
        Err(e) => Err(AuthError::from(e)),
    }
}

/// Signs and checks tokens with one HMAC-SHA256 secret.
pub struct JWTAuth {
    secret_key: String,
}

impl JWTAuth {
    /// The secret with which this service signs and checks tokens.
    pub closed spec fn secret(&self) -> Seq<char> {
        self.secret_key@
    }

    /// A token service with the secret `secret_key`. HMAC takes a secret of
    /// any length.
    pub fn new(secret_key: &str) -> (res: JWTAuth)
        ensures
            res.secret() == secret_key@,
    {
        JWTAuth { secret_key: secret_key.to_owned() }
    }

    /// The token that carries `payload`: the base64url of the header
    /// `{"alg":"HS256"}`, the payload in base64url and the signature of both
    /// under this service's secret. Checking it with `verify_token` gives
    /// the payload back.
    pub fn sign_token(&self, payload: &[u8]) -> (res: String)
        ensures
            res@ == signed_token(
                self.secret(),
                base64url_encoding(header_json(HMAC_SHA256_ALGORITHM)),
                payload@,
            ),
            accepted_payload(self.secret(), res@) == Some(payload@),
    {
        let header = match encode_header(HMAC_SHA256_ALGORITHM) {
            Ok(h) => h,
            Err(_) => {
                proof {
                    assert(false);
                }
                String::new()
            },
        };
        let claims = base64url_encode(payload);
        let signature = match hs256_sign(self.secret_key.as_str(), header.as_str(), claims.as_str()) {
            Ok(s) => s,
            Err(_) => {
                proof {
                    assert(false);
                }
                String::new()
            },
        };
        let token = join_token(header.as_str(), claims.as_str(), signature.as_str());
        proof {
            lemma_join_then_split(header@, claims@, signature@);
            assert(token@ == signed_token(self.secret(), header@, payload@));
        }
        token
    }

    /// The payload that `token` carries, where this service accepts it: the
    /// token has exactly three segments, its header names HS256, the
    /// algorithm of the service's HMAC-SHA256 key, its
    /// signature under this service's secret is accepted and its payload
    /// segment is valid base64url. Any other token is `InvalidToken`.
    pub fn verify_token(&self, token: &str) -> (res: Result<Vec<u8>, AuthError>)
        ensures
            match res {
                Ok(p) => accepted_payload(self.secret(), token@) == Some(p@),
                Err(e) => accepted_payload(self.secret(), token@) is None && e
                    == AuthError::InvalidToken,
            },
    {
        let (h, c, s) = match split_token(token) {
            Some(parts) => parts,
            None => return Err(AuthError::InvalidToken),
        };
        proof {
            let (h2, c2, s2) = token_segments(token@);
            lemma_split_unique(token@, h@, c@, s@, h2, c2, s2);
        }
        let header_check = read_header_algorithm(h);
        let payload = base64url_decode(c);
        let signature_check = hs256_verify(self.secret_key.as_str(), h, c, s);
        accept_token(header_check, payload, signature_check)
    }

    /// What a claim read from a verified token gives now, by the clock: see
    /// `spec_login_at`. Whatever the clock reads, the result is the one for
    /// some instant since the epoch; `None` where the clock cannot be read
    /// as a calendar instant.
    pub fn login(&self, claim: &Claim) -> (res: Option<Result<LoginClaims, AuthError>>)
        ensures
            exists|now: Option<Timestamp>|
                {
                    &&& #[trigger] is_clock_instant(now)
                    &&& res == match now {
                        Some(t) => Some(spec_login_at(*claim, t)),
                        None => None::<Result<LoginClaims, AuthError>>,
                    }
                },
            exists|reading: Option<(u64, u32)>|
                #[trigger] is_clock_reading(reading) && res == spec_login_by_reading(*claim, reading),
    {
        let reading = system_clock_since_epoch();
        let res = login_by_reading(claim, reading);
        let ghost now = spec_instant_from_clock(reading);
        assert(is_clock_reading(reading));
        assert(is_clock_instant(now));
        res
    }
}

/// The login claim for `claims` issued at `now`: the claim that expires one
/// day later; `None` where the calendar cannot hold that instant.
pub fn login_claim_for(claims: &LoginClaims, now: Timestamp) -> (res: Option<Claim>)
    ensures
        res == if now.secs <= MAX_TIMESTAMP_SECS - SECS_PER_DAY {
            Some(spec_login_claim_at(*claims, now))
        } else {
            None::<Claim>
        },
{
    if now.secs <= MAX_TIMESTAMP_SECS - SECS_PER_DAY {
        Some(login_claim_at(claims, now))
    } else {
        None
    }
}

/// What a claim gives when checked at the clock reading `reading`: judged
/// at the calendar instant of that reading; `None` where the reading is no
/// calendar instant.
pub open spec fn spec_login_by_reading(claim: Claim, reading: Option<(u64, u32)>) -> Option<
    Result<LoginClaims, AuthError>,
> {
    match spec_instant_from_clock(reading) {
        Some(t) => Some(spec_login_at(claim, t)),
        None => None,
    }
}

/// The claim issued for `claims` at the clock reading `reading`: the login
/// claim at the calendar instant of that reading; `None` where the reading
/// is no calendar instant or the calendar cannot hold the day after it.
pub open spec fn spec_login_claim_by_reading(
    claims: LoginClaims,
    reading: Option<(u64, u32)>,
) -> Option<Claim> {
    match spec_instant_from_clock(reading) {
        Some(t) => if t.secs <= MAX_TIMESTAMP_SECS - SECS_PER_DAY {
            Some(spec_login_claim_at(claims, t))
        } else {
            None
        },
        None => None,
    }
}

/// What a claim gives when checked at the clock reading `reading`.
pub fn login_by_reading(claim: &Claim, reading: Option<(u64, u32)>) -> (res: Option<
    Result<LoginClaims, AuthError>,
>)
    requires
        is_clock_reading(reading),
    ensures
        res == spec_login_by_reading(*claim, reading),
{
    match instant_from_clock(reading) {
        Some(t) => Some(login_at(claim, t)),
        None => None,
    }
}

/// The claim issued for `claims` at the clock reading `reading`.
pub fn login_claim_by_reading(claims: &LoginClaims, reading: Option<(u64, u32)>) -> (res: Option<
    Claim,
>)
    requires
        is_clock_reading(reading),
    ensures
        res == spec_login_claim_by_reading(*claims, reading),
{
    match instant_from_clock(reading) {
        Some(t) => login_claim_for(claims, t),
        None => None,
    }
}

/// The login claim for `claims` issued now, by the clock (see
/// `login_claim_for`); `None` where the clock cannot be read as a calendar
/// instant, or where the calendar cannot hold the instant one day later.
pub fn login_claim_now(claims: &LoginClaims) -> (res: Option<Claim>)
    ensures
        exists|now: Option<Timestamp>|
            {
                &&& #[trigger] is_clock_instant(now)
                &&& res == match now {
                    Some(t) => if t.secs <= MAX_TIMESTAMP_SECS - SECS_PER_DAY {
                        Some(spec_login_claim_at(*claims, t))
                    } else {
                        None::<Claim>
                    },
                    None => None::<Claim>,
                }
            },
        exists|reading: Option<(u64, u32)>|
            #[trigger] is_clock_reading(reading) && res == spec_login_claim_by_reading(
                *claims,
                reading,
            ),
{
    let reading = system_clock_since_epoch();
    let res = login_claim_by_reading(claims, reading);
    let ghost now = spec_instant_from_clock(reading);
    assert(is_clock_reading(reading));
    assert(is_clock_instant(now));
    assert(res == match now {
        Some(t) => if t.secs <= MAX_TIMESTAMP_SECS - SECS_PER_DAY {
            Some(spec_login_claim_at(*claims, t))
        } else {
            None::<Claim>
        },
        None => None::<Claim>,
    });
    res
}

/// A login claim issued at `issued` logs its user in at any instant before
/// one day after `issued`, and is refused as expired from then on.
pub proof fn lemma_login_claim_valid_for_one_day(
    claims: LoginClaims,
    issued: Timestamp,
    now: Timestamp,
)
    ensures
        spec_login_at(spec_login_claim_at(claims, issued), now) == if spec_is_before(
            now,
            spec_one_day_after(issued),
        ) {
            Ok::<LoginClaims, AuthError>(claims)
        } else {
            Err(AuthError::ExpiredToken)
        },
{
}

/// A claim is judged at the instant it is checked, in chronological order:
/// a login claim logs its user in at an instant with fewer whole seconds
/// than its expiry and is expired at its expiry and at any instant with more
/// whole seconds; whatever is accepted at an instant is accepted at every
/// earlier one, and whatever has expired stays expired later.
pub proof fn lemma_login_judged_chronologically(claim: Claim, t1: Timestamp, t2: Timestamp)
    ensures
        claim matches Claim::Login { claims, exp } ==> {
            &&& t1.secs < exp.secs ==> spec_login_at(claim, t1) == Ok::<LoginClaims, AuthError>(
                claims,
            )
            &&& t1.secs > exp.secs ==> spec_login_at(claim, t1) == Err::<LoginClaims, AuthError>(
                AuthError::ExpiredToken,
            )
            &&& spec_login_at(claim, exp) == Err::<LoginClaims, AuthError>(AuthError::ExpiredToken)
        },
        spec_is_before(t1, t2) && spec_login_at(claim, t2) is Ok ==> spec_login_at(claim, t1)
            == spec_login_at(claim, t2),
        spec_is_before(t1, t2) && spec_login_at(claim, t1) == Err::<LoginClaims, AuthError>(
            AuthError::ExpiredToken,
        ) ==> spec_login_at(claim, t2) == Err::<LoginClaims, AuthError>(AuthError::ExpiredToken),
{
    if let Claim::Login { claims, exp } = claim {
        lemma_is_before_is_chronological(t1, t2, exp);
        lemma_is_before_is_chronological(exp, t1, t2);
        lemma_is_before_is_chronological(t1, exp, t2);
        lemma_is_before_is_chronological(exp, exp, exp);
    }
}

/// The clock reading is the instant at which a claim is judged and from
/// which an issued claim's expiry is counted: a claim issued at the reading
/// `(s1, n1)` expires exactly one day (86 400 seconds) later, with the same
/// nanoseconds; checked at a reading `(s2, n2)` it logs its user in exactly
/// while that reading comes before the expiry, so in particular at the
/// reading it was issued at; and any login claim checked at a reading with
/// more whole seconds than its expiry is expired, with fewer accepted.
pub proof fn lemma_clock_reading_is_the_instant(
    claims: LoginClaims,
    s1: u64,
    n1: u32,
    s2: u64,
    n2: u32,
    claim: Claim,
)
    requires
        n1 < 1_000_000_000,
        n2 < 1_000_000_000,
        s1 + SECS_PER_DAY <= MAX_TIMESTAMP_SECS,
        s2 <= MAX_TIMESTAMP_SECS,
    ensures
        spec_login_claim_by_reading(claims, Some((s1, n1))) == Some(
            Claim::Login {
                claims,
                exp: Timestamp { secs: (s1 + SECS_PER_DAY) as i64, nanos: n1 },
            },
        ),
        spec_login_by_reading(
            spec_login_claim_by_reading(claims, Some((s1, n1)))->Some_0,
            Some((s2, n2)),
        ) == if s2 < s1 + SECS_PER_DAY || (s2 == s1 + SECS_PER_DAY && n2 < n1) {
            Some(Ok::<LoginClaims, AuthError>(claims))
        } else {
            Some(Err::<LoginClaims, AuthError>(AuthError::ExpiredToken))
        },
        spec_login_by_reading(
            spec_login_claim_by_reading(claims, Some((s1, n1)))->Some_0,
            Some((s1, n1)),
        ) == Some(Ok::<LoginClaims, AuthError>(claims)),
        claim matches Claim::Login { claims: c, exp } ==> {
            &&& (s2 > exp.secs ==> spec_login_by_reading(claim, Some((s2, n2))) == Some(
                Err::<LoginClaims, AuthError>(AuthError::ExpiredToken),
            ))
            &&& (s2 < exp.secs ==> spec_login_by_reading(claim, Some((s2, n2))) == Some(
                Ok::<LoginClaims, AuthError>(c),
            ))
        },
{
}

/// A signup claim never logs anyone in.
pub proof fn lemma_signup_claim_never_logs_in(claim: Claim, now: Timestamp)
    requires
        claim is Singup,
    ensures
        spec_login_at(claim, now) == Err::<LoginClaims, AuthError>(AuthError::InvalidToken),
{
}

} // verus!
