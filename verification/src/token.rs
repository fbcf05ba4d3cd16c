//! Compact JSON Web Tokens signed with HMAC-SHA256: a token is three
//! base64url segments (header, payload, signature) joined by dots.
//!
//! The header and the signature are produced and checked by the `jwt` crate,
//! the payload segment by the `base64` crate; this module splits and joins
//! the segments and decides when a token is accepted.
use vstd::prelude::*;

use jwt::AlgorithmType as A;
use self::JwtAlgorithm as J;

verus! {

/// The error type of the `jwt` crate.
#[verifier::external_type_specification]
#[verifier::external_body]
pub struct ExJwtError(jwt::Error);

/// The base64url text (no padding) of `bytes`.
pub uninterp spec fn base64url_encoding(bytes: Seq<u8>) -> Seq<char>;

/// The bytes that the base64url text (no padding) `text` stands for, if it is valid.
pub uninterp spec fn base64url_decoding(text: Seq<char>) -> Option<Seq<u8>>;

/// The signing algorithms that a JWT header can name.
#[derive(Debug, Clone, Copy, PartialEq, Eq, Structural)]
pub enum JwtAlgorithm {
    Hs256,
    Hs384,
    Hs512,
    Rs256,
    Rs384,
    Rs512,
    Es256,
    Es384,
    Es512,
    Ps256,
    Ps384,
    Ps512,
    /// The unsigned token, named `none`.
    NoSignature,
}

/// The algorithm of an HMAC-SHA256 key: the one with which this service
/// signs its tokens, and the only one whose tokens it accepts.
pub const HMAC_SHA256_ALGORITHM: JwtAlgorithm = JwtAlgorithm::Hs256;

/// The name by which a JWT header gives `algorithm`.
pub open spec fn algorithm_name(algorithm: JwtAlgorithm) -> Seq<char> {
    match algorithm {
        JwtAlgorithm::Hs256 => seq!['H', 'S', '2', '5', '6'],
        JwtAlgorithm::Hs384 => seq!['H', 'S', '3', '8', '4'],
        JwtAlgorithm::Hs512 => seq!['H', 'S', '5', '1', '2'],
        JwtAlgorithm::Rs256 => seq!['R', 'S', '2', '5', '6'],
        JwtAlgorithm::Rs384 => seq!['R', 'S', '3', '8', '4'],
        JwtAlgorithm::Rs512 => seq!['R', 'S', '5', '1', '2'],
        JwtAlgorithm::Es256 => seq!['E', 'S', '2', '5', '6'],
        JwtAlgorithm::Es384 => seq!['E', 'S', '3', '8', '4'],
        JwtAlgorithm::Es512 => seq!['E', 'S', '5', '1', '2'],
        JwtAlgorithm::Ps256 => seq!['P', 'S', '2', '5', '6'],
        JwtAlgorithm::Ps384 => seq!['P', 'S', '3', '8', '4'],
        JwtAlgorithm::Ps512 => seq!['P', 'S', '5', '1', '2'],
        JwtAlgorithm::NoSignature => seq!['n', 'o', 'n', 'e'],
    }
}

/// The JSON bytes of the header that names only `algorithm`:
/// `{"alg":"<name>"}`.
pub open spec fn header_json(algorithm: JwtAlgorithm) -> Seq<u8> {
    seq![123u8, 34, 97, 108, 103, 34, 58, 34] + algorithm_name(algorithm).map_values(
        |c: char| c as u8,
    ) + seq![34u8, 125]
}

/// The algorithm that the base64url-encoded JWT header `segment` names;
/// `None` where the segment is no valid header.
pub uninterp spec fn header_algorithm(segment: Seq<char>) -> Option<JwtAlgorithm>;

/// The base64url HMAC-SHA256 signature, under the secret `secret`, of the
/// segments `header` and `claims` joined by a dot.
pub uninterp spec fn hs256_signature(secret: Seq<char>, header: Seq<char>, claims: Seq<char>) -> Seq<char>;

/// Whether `signature` is accepted as the HMAC-SHA256 signature, under the
/// secret `secret`, of the segments `header` and `claims`.
pub uninterp spec fn hs256_signature_accepted(
    secret: Seq<char>,
    header: Seq<char>,
    claims: Seq<char>,
    signature: Seq<char>,
) -> bool;

/// Encodes bytes as base64url without padding, through
/// `base64::encode_config` with `URL_SAFE_NO_PAD`, the encoding the `jwt`
/// crate gives every segment. Claimed: the result is named by
/// `base64url_encoding`; it holds no dot, since that alphabet has none; and
/// decoding it gives the bytes back.
#[verifier::external_body]
pub(crate) fn base64url_encode(bytes: &[u8]) -> (res: String)
    ensures
        res@ == base64url_encoding(bytes@),
        !res@.contains('.'),
        base64url_decoding(res@) == Some(bytes@),
{
    base64::encode_config(bytes, base64::URL_SAFE_NO_PAD)
}

/// Decodes base64url text without padding, through `base64::decode_config`
/// with `URL_SAFE_NO_PAD`. Claimed: the outcome is the one named by
/// `base64url_decoding`, and a decoding error gives `None`.
#[verifier::external_body]
pub(crate) fn base64url_decode(text: &str) -> (res: Option<Vec<u8>>)
    ensures
        match res {
            Some(bytes) => base64url_decoding(text@) == Some(bytes@),
            None => base64url_decoding(text@) is None,
        },
{
    base64::decode_config(text, base64::URL_SAFE_NO_PAD).ok()
}

/// Encodes the JWT header that names only `algorithm`: a `jwt::Header`
/// with that algorithm and every other field left out, through
/// `jwt::ToBase64::to_base64`, which writes the header's JSON with
/// `serde_json` and encodes it as base64url without padding. Claimed: it
/// never fails (the header is plain JSON); the text is the base64url of
/// `{"alg":"<name>"}`, the JSON that `serde_json` writes for that header; it
/// holds no dot; and reading it back names `algorithm`.
#[verifier::external_body]
pub(crate) fn encode_header(algorithm: JwtAlgorithm) -> (res: Result<String, jwt::Error>)
    ensures
        res is Ok,
        res matches Ok(h) ==> {
            &&& h@ == base64url_encoding(header_json(algorithm))
            &&& !h@.contains('.')
            &&& header_algorithm(h@) == Some(algorithm)
        },
{
    let algorithm = match algorithm {
        J::Hs256 => A::Hs256, J::Hs384 => A::Hs384, J::Hs512 => A::Hs512,
        J::Rs256 => A::Rs256, J::Rs384 => A::Rs384, J::Rs512 => A::Rs512,
        J::Es256 => A::Es256, J::Es384 => A::Es384, J::Es512 => A::Es512,
        J::Ps256 => A::Ps256, J::Ps384 => A::Ps384, J::Ps512 => A::Ps512,
        J::NoSignature => A::None,
    };
    let header = jwt::Header { algorithm, ..Default::default() };
    jwt::ToBase64::to_base64(&header).map(|h| h.into_owned())
}

/// Reads a base64url JWT header segment into a `jwt::Header` through
/// `jwt::FromBase64::from_base64`, and gives the algorithm it names.
/// Claimed: the outcome is the one named by `header_algorithm`.
#[verifier::external_body]
pub(crate) fn read_header_algorithm(segment: &str) -> (res: Result<JwtAlgorithm, jwt::Error>)
    ensures
        match res {
            Ok(a) => header_algorithm(segment@) == Some(a),
            Err(_) => header_algorithm(segment@) is None,
        },
{
    Ok(match <jwt::Header as jwt::FromBase64>::from_base64(segment)?.algorithm {
        A::Hs256 => J::Hs256, A::Hs384 => J::Hs384, A::Hs512 => J::Hs512,
        A::Rs256 => J::Rs256, A::Rs384 => J::Rs384, A::Rs512 => J::Rs512,
        A::Es256 => J::Es256, A::Es384 => J::Es384, A::Es512 => J::Es512,
        A::Ps256 => J::Ps256, A::Ps384 => J::Ps384, A::Ps512 => J::Ps512,
        A::None => J::NoSignature,
    })
}

/// Signs `header.claims` with HMAC-SHA256 under `secret`: an
/// `Hmac<Sha256>` made by `hmac::NewMac::new_varkey` from the secret's
/// bytes, then `jwt::SigningAlgorithm::sign`. Claimed: it never fails (an
/// HMAC takes a key of any length and signing has no error path), the
/// signature is the one named by `hs256_signature`, it is base64url and so
/// holds no dot, and the same key accepts it.
#[verifier::external_body]
pub(crate) fn hs256_sign(secret: &str, header: &str, claims: &str) -> (res: Result<String, jwt::Error>)
    ensures
        res is Ok,
        res matches Ok(s) ==> {
            &&& s@ == hs256_signature(secret@, header@, claims@)
            &&& !s@.contains('.')
            &&& hs256_signature_accepted(secret@, header@, claims@, s@)
        },
{
    let key = <hmac::Hmac<sha2::Sha256> as hmac::NewMac>::new_varkey(secret.as_bytes())?;
    jwt::SigningAlgorithm::sign(&key, header, claims)
}

/// Checks a signature of `header.claims` under `secret` with HMAC-SHA256:
/// an `Hmac<Sha256>` made by `hmac::NewMac::new_varkey` from the secret's
/// bytes, then `jwt::VerifyingAlgorithm::verify`. Claimed: the signature is
/// accepted, `Ok(true)`, exactly when `hs256_signature_accepted` holds.
#[verifier::external_body]
pub(crate) fn hs256_verify(secret: &str, header: &str, claims: &str, signature: &str) -> (res: Result<
    bool,
    jwt::Error,
>)
    ensures
        hs256_signature_accepted(secret@, header@, claims@, signature@) <==> (res matches Ok(b)
            && b),
{
    let key = <hmac::Hmac<sha2::Sha256> as hmac::NewMac>::new_varkey(secret.as_bytes())?;
    jwt::VerifyingAlgorithm::verify(&key, header, claims, signature)
}

/// `token` is the three dot-free segments `header`, `claims`, `signature`
/// joined by dots.
pub open spec fn is_token_split(
    token: Seq<char>,
    header: Seq<char>,
    claims: Seq<char>,
    signature: Seq<char>,
) -> bool {
    &&& token == header + seq!['.'] + claims + seq!['.'] + signature
    &&& !header.contains('.')
    &&& !claims.contains('.')
    &&& !signature.contains('.')
}

/// `token` has exactly three segments.
pub open spec fn has_three_segments(token: Seq<char>) -> bool {
    exists|h: Seq<char>, c: Seq<char>, s: Seq<char>| is_token_split(token, h, c, s)
}

/// The three segments of `token`, where it has three.
pub open spec fn token_segments(token: Seq<char>) -> (Seq<char>, Seq<char>, Seq<char>) {
    choose|h: Seq<char>, c: Seq<char>, s: Seq<char>| is_token_split(token, h, c, s)
}

/// The token made of the header segment `header`, the payload `payload` and
/// the signature of both under `secret`.
pub open spec fn signed_token(secret: Seq<char>, header: Seq<char>, payload: Seq<u8>) -> Seq<char> {
    let claims = base64url_encoding(payload);
    header + seq!['.'] + claims + seq!['.'] + hs256_signature(secret, header, claims)
}

/// The payload that `token` carries, where it is accepted under `secret`:
/// it has three segments, its header names the algorithm of the HMAC-SHA256
/// key, its signature is accepted and its payload segment is valid base64url.
pub open spec fn accepted_payload(secret: Seq<char>, token: Seq<char>) -> Option<Seq<u8>> {
    if has_three_segments(token) {
        let (h, c, s) = token_segments(token);
        if header_algorithm(h) == Some(HMAC_SHA256_ALGORITHM) && hs256_signature_accepted(
            secret,
            h,
            c,
            s,
        ) {
            base64url_decoding(c)
        } else {
            None
        }
    } else {
        None
    }
}

/// Where a dot-free `header` starts `token` followed by a dot, no dot of
/// `token` comes before that one.
proof fn lemma_first_dot(token: Seq<char>, header: Seq<char>, rest: Seq<char>, k: int)
    requires
        token == header + seq!['.'] + rest,
        !header.contains('.'),
        0 <= k < token.len(),
        token[k] == '.',
    ensures
        k >= header.len(),
{
    if k < header.len() {
        assert(token[k] == header[k]);
        assert(header.contains('.'));
    }
}

/// A token splits into three segments in at most one way.
pub proof fn lemma_split_unique(
    token: Seq<char>,
    h1: Seq<char>,
    c1: Seq<char>,
    s1: Seq<char>,
    h2: Seq<char>,
    c2: Seq<char>,
    s2: Seq<char>,
)
    requires
        is_token_split(token, h1, c1, s1),
        is_token_split(token, h2, c2, s2),
    ensures
        h1 == h2,
        c1 == c2,
        s1 == s2,
{
    let r1 = c1 + seq!['.'] + s1;
    let r2 = c2 + seq!['.'] + s2;
    assert(token == h1 + seq!['.'] + r1);
    assert(token == h2 + seq!['.'] + r2);
    assert(token[h1.len() as int] == '.');
    assert(token[h2.len() as int] == '.');
    lemma_first_dot(token, h1, r1, h2.len() as int);
    lemma_first_dot(token, h2, r2, h1.len() as int);
    assert(h1.len() == h2.len());
    assert(h1 =~= token.subrange(0, h1.len() as int));
    assert(h2 =~= token.subrange(0, h2.len() as int));
    assert(r1 =~= token.subrange(h1.len() as int + 1, token.len() as int));
    assert(r2 =~= token.subrange(h2.len() as int + 1, token.len() as int));
    assert(r1 == r2);
    assert(r1[c1.len() as int] == '.');
    assert(r2[c2.len() as int] == '.');
    lemma_first_dot(r1, c1, s1, c2.len() as int);
    lemma_first_dot(r2, c2, s2, c1.len() as int);
    assert(c1 =~= r1.subrange(0, c1.len() as int));
    assert(c2 =~= r2.subrange(0, c2.len() as int));
    assert(s1 =~= r1.subrange(c1.len() as int + 1, r1.len() as int));
    assert(s2 =~= r2.subrange(c2.len() as int + 1, r2.len() as int));
}

/// Joining three dot-free segments gives a token whose segments are exactly those.
pub proof fn lemma_join_then_split(header: Seq<char>, claims: Seq<char>, signature: Seq<char>)
    requires
        !header.contains('.'),
        !claims.contains('.'),
        !signature.contains('.'),
    ensures
        has_three_segments(header + seq!['.'] + claims + seq!['.'] + signature),
        token_segments(header + seq!['.'] + claims + seq!['.'] + signature) == (
            header,
            claims,
            signature,
        ),
{
    let token = header + seq!['.'] + claims + seq!['.'] + signature;
    assert(is_token_split(token, header, claims, signature));
    let (h, c, s) = token_segments(token);
    lemma_split_unique(token, h, c, s, header, claims, signature);
}

/// In a token split into three segments, the only dots are the two that
/// join them.
proof fn lemma_split_dots(token: Seq<char>, h: Seq<char>, c: Seq<char>, s: Seq<char>)
    requires
        is_token_split(token, h, c, s),
    ensures
        token[h.len() as int] == '.',
        token[h.len() as int + 1 + c.len()] == '.',
        forall|k: int|
            0 <= k < token.len() && #[trigger] token[k] == '.' ==> k == h.len() || k == h.len() as int + 1
                + c.len(),
{
    let p1 = h.len() as int;
    let p2 = h.len() as int + 1 + c.len();
    assert(token.len() == p2 + 1 + s.len());
    assert forall|k: int| 0 <= k < token.len() && #[trigger] token[k] == '.' implies k == p1 || k
        == p2 by {
        if k < p1 {
            assert(token[k] == h[k]);
            assert(h.contains('.'));
        } else if p1 < k < p2 {
            assert(token[k] == c[k - p1 - 1]);
            assert(c.contains('.'));
        } else if k > p2 {
            assert(token[k] == s[k - p2 - 1]);
            assert(s.contains('.'));
        }
    }
}

/// The token made of the segments `header`, `claims` and `signature`,
/// joined by dots.
pub fn join_token(header: &str, claims: &str, signature: &str) -> (res: String)
    ensures
        res@ == header@ + seq!['.'] + claims@ + seq!['.'] + signature@,
{
    let mut token = header.to_owned();
    token.append(".");
    token.append(claims);
    token.append(".");
    token.append(signature);
    proof {
        reveal_strlit(".");
        assert(token@ =~= header@ + seq!['.'] + claims@ + seq!['.'] + signature@);
    }
    token
}

/// Splits `token` at its dots into its three segments; `None` where it does
/// not have exactly two dots.
pub fn split_token(token: &str) -> (res: Option<(&str, &str, &str)>)
    ensures
        match res {
            Some((h, c, s)) => is_token_split(token@, h@, c@, s@),
            None => !has_three_segments(token@),
        },
{
    let n = token.unicode_len();
    let mut first: usize = 0;
    let mut second: usize = 0;
    let mut dots: usize = 0;
    let mut i: usize = 0;
    while i < n
        invariant
            n == token@.len(),
            i <= n,
            dots <= 2,
            dots >= 1 ==> first < i && token@[first as int] == '.',
            dots >= 2 ==> first < second < i && token@[second as int] == '.',
            forall|k: int|
                0 <= k < i && #[trigger] token@[k] == '.' ==> (dots >= 1 && k == first) || (dots
                    >= 2 && k == second),
        decreases n - i,
    {
        if token.get_char(i) == '.' {
            if dots == 0 {
                first = i;
                dots = 1;
            } else if dots == 1 {
                second = i;
                dots = 2;
            } else {
                proof {
                    if has_three_segments(token@) {
                        let (h, c, s) = token_segments(token@);
                        lemma_split_dots(token@, h, c, s);
                        assert(token@[first as int] == '.');
                        assert(token@[second as int] == '.');
                        assert(token@[i as int] == '.');
                    }
                }
                return None;
            }
        }
        i += 1;
    }
    if dots < 2 {
        proof {
            if has_three_segments(token@) {
                let (h, c, s) = token_segments(token@);
                lemma_split_dots(token@, h, c, s);
                let p1 = h.len() as int;
                let p2 = h.len() as int + 1 + c.len();
                assert(token@[p1] == '.');
                assert(token@[p2] == '.');
            }
        }
        return None;
    }
    let h = token.substring_char(0, first);
    let c = token.substring_char(first + 1, second);
    let s = token.substring_char(second + 1, n);
    proof {
        assert(token@ =~= h@ + seq!['.'] + c@ + seq!['.'] + s@);
        assert(!h@.contains('.')) by {
            if h@.contains('.') {
                let k = choose|k: int| 0 <= k < h@.len() && h@[k] == '.';
                assert(token@[k] == '.');
            }
        }
        assert(!c@.contains('.')) by {
            if c@.contains('.') {
                let k = choose|k: int| 0 <= k < c@.len() && c@[k] == '.';
                assert(token@[first + 1 + k] == '.');
            }
        }
        assert(!s@.contains('.')) by {
            if s@.contains('.') {
                let k = choose|k: int| 0 <= k < s@.len() && s@[k] == '.';
                assert(token@[second + 1 + k] == '.');
            }
        }
    }
    Some((h, c, s))
}

} // verus!
