//! Password hashing with bcrypt.
use vstd::prelude::*;
use vstd::utf8::is_ascii_chars;

verus! {

/// What checking `password` against the bcrypt hash `hash` gives: whether
/// it matches, or `None` where the hash cannot be read or the password
/// cannot be hashed.
pub uninterp spec fn bcrypt_verification(password: Seq<char>, hash: Seq<char>) -> Option<bool>;

/// The bcrypt cost with which new passwords are hashed: bcrypt's default.
pub const PASSWORD_HASH_COST: u32 = 12;

/// The decimal digit `d`, for `d` below ten.
pub open spec fn decimal_digit(d: u32) -> char {
    if d == 0 { '0' }
    else if d == 1 { '1' }
    else if d == 2 { '2' }
    else if d == 3 { '3' }
    else if d == 4 { '4' }
    else if d == 5 { '5' }
    else if d == 6 { '6' }
    else if d == 7 { '7' }
    else if d == 8 { '8' }
    else { '9' }
}

/// `c` belongs to bcrypt's base64 alphabet: `.`, `/`, letters and digits.
pub open spec fn is_bcrypt_base64_char(c: char) -> bool {
    ||| c == '.'
    ||| c == '/'
    ||| ('A' <= c && c <= 'Z')
    ||| ('a' <= c && c <= 'z')
    ||| ('0' <= c && c <= '9')
}

/// `hash` is a bcrypt hash text of version 2b and cost `cost`: `$2b$`, the
/// cost in two digits, `$`, then 53 characters of bcrypt's base64 alphabet
/// (22 of salt, 31 of hash).
pub open spec fn is_bcrypt_hash_text(hash: Seq<char>, cost: u32) -> bool {
    &&& hash.len() == 60
    &&& hash[0] == '$' && hash[1] == '2' && hash[2] == 'b' && hash[3] == '$'
    &&& hash[4] == decimal_digit(cost / 10) && hash[5] == decimal_digit(cost % 10)
    &&& hash[6] == '$'
    &&& forall|i: int| 7 <= i < 60 ==> #[trigger] is_bcrypt_base64_char(hash[i])
}

/// A bcrypt hash text is ASCII.
pub proof fn lemma_bcrypt_hash_text_is_ascii(hash: Seq<char>, cost: u32)
    requires
        is_bcrypt_hash_text(hash, cost),
        cost < 100,
    ensures
        is_ascii_chars(hash),
{
    assert forall|i: int| 0 <= i < hash.len() implies '\0' <= #[trigger] hash[i] <= '\u{7f}' by {
        if i >= 7 {
            assert(is_bcrypt_base64_char(hash[i]));
        }
    }
}

/// Hashes `password` with bcrypt at cost `cost`, through `bcrypt::hash`,
/// under a random salt. Claimed, as the source shows: a cost outside 4 to
/// 31 is refused (`CostNotAllowed`), and so is a password with a NUL
/// character (`InvalidPassword`); a hash that comes out is written as
/// version 2b with that cost, the 16-byte salt and the 23-byte hash in
/// bcrypt's base64 alphabet, and it is one that `bcrypt::verify` matches
/// with the same password, since verifying hashes the password again with
/// the salt and cost read from the hash. Nothing else is stated: the salt,
/// and so the hash, is random, and drawing it may fail.
#[verifier::external_body]
pub(crate) fn bcrypt_hash(password: &str, cost: u32) -> (res: Result<String, bcrypt::BcryptError>)
    ensures
        cost < 4 || cost > 31 ==> res is Err,
        password@.contains('\0') ==> res is Err,
        res matches Ok(h) ==> is_bcrypt_hash_text(h@, cost),
        res matches Ok(h) ==> bcrypt_verification(password@, h@) == Some(true),
{
    bcrypt::hash(password, cost)
}

/// Checks `password` against the bcrypt hash `hash`, through
/// `bcrypt::verify`. The hash must be ASCII: `bcrypt::verify` cuts the last
/// `$`-separated part of the hash at its 22nd byte and panics where that
/// byte falls inside a character. Claimed: the outcome is the one named by
/// `bcrypt_verification`.
#[verifier::external_body]
pub(crate) fn bcrypt_verify(password: &str, hash: &str) -> (res: Result<bool, bcrypt::BcryptError>)
    requires
        is_ascii_chars(hash@),
    ensures
        match res {
            Ok(b) => bcrypt_verification(password@, hash@) == Some(b),
            Err(_) => bcrypt_verification(password@, hash@) is None,
        },
{
    bcrypt::verify(password, hash)
}

} // verus!
