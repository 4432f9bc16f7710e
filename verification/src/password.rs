use vstd::prelude::*;
use vstd::string::*;
use vstd::utf8::encode_utf8;

use crate::error::AppError;

verus! {

/// The error text with which `argon2::PasswordHash::new` refuses a stored
/// hash string, or `None` where it parses as a PHC string.
pub uninterp spec fn phc_parse_error(hash: Seq<char>) -> Option<Seq<char>>;

/// Whether `Argon2::default().verify_password` accepts a password against a
/// stored PHC hash string.
pub uninterp spec fn argon2_accepts(hash: Seq<char>, password: Seq<char>) -> bool;

/// Parses a stored hash with `argon2::PasswordHash::new`. Trusted: the
/// outcome is the named one, `phc_parse_error`, with the error as its text.
#[verifier::external_body]
fn phc_error(hash: &str) -> (r: Option<String>)
    ensures
        r is None <==> phc_parse_error(hash@) is None,
        r matches Some(m) ==> phc_parse_error(hash@) == Some(m@),
{
    argon2::PasswordHash::new(hash).err().map(|e| e.to_string())
}

/// Checks a password against a parsed stored hash with
/// `Argon2::default().verify_password`. Trusted: the answer is the named one,
/// `argon2_accepts`.
#[verifier::external_body]
fn argon2_verify(hash: &str, password: &str) -> (b: bool)
    requires
        phc_parse_error(hash@) is None,
    ensures
        b == argon2_accepts(hash@, password@),
{
    match argon2::PasswordHash::new(hash) {
        Ok(parsed) => argon2::PasswordVerifier::verify_password(
            &argon2::Argon2::default(),
            password.as_bytes(),
            &parsed,
        ).is_ok(),
        Err(_) => false,
    }
}

/// Hashes a password with `Argon2::default().hash_password` under a salt from
/// `SaltString::generate(rand::thread_rng())`, giving the PHC string; an error
/// is returned as its text. The salt is random, so the hash is not named.
/// Trusted: hashing fails only for a password longer than `MAX_PWD_LEN`
/// (`0xFFFF_FFFF` bytes); a hash that is returned names the default algorithm,
/// Argon2id, first (`$argon2id$`), parses as a PHC string and is accepted for
/// the same password by `verify_password`.
#[verifier::external_body]
fn argon2_hash(password: &str) -> (r: Result<String, String>)
    ensures
        hashable(password@) ==> r is Ok,
        r matches Ok(h) ==> is_argon2id_phc(h@),
        r matches Ok(h) ==> phc_parse_error(h@) is None,
        r matches Ok(h) ==> argon2_accepts(h@, password@),
{
    let salt = argon2::password_hash::SaltString::generate(&mut rand::thread_rng());
    argon2::PasswordHasher::hash_password(&argon2::Argon2::default(), password.as_bytes(), &salt)
        .map(|h| h.to_string())
        .map_err(|e| e.to_string())
}

/// Whether a stored hash is a PHC string of the Argon2id algorithm: it begins
/// with `$argon2id$`.
pub open spec fn is_argon2id_phc(hash: Seq<char>) -> bool {
    &&& hash.len() >= 10
    &&& hash.take(10) == "$argon2id$"@
}

/// Whether `argon2` can hash a password: at most `0xFFFF_FFFF` bytes long.
pub open spec fn hashable(password: Seq<char>) -> bool {
    encode_utf8(password).len() <= 0xFFFF_FFFF
}

/// How a password fares against a stored hash.
pub enum PasswordVerdict {
    Accepted,
    Refused,
    UnreadableHash(Seq<char>),
}

/// The verdict on a password against a stored hash: an unreadable hash is
/// reported with the parser's message; otherwise `argon2` accepts or refuses.
pub open spec fn password_verdict(hash: Seq<char>, password: Seq<char>) -> PasswordVerdict {
    match phc_parse_error(hash) {
        Some(m) => PasswordVerdict::UnreadableHash(m),
        None => if argon2_accepts(hash, password) {
            PasswordVerdict::Accepted
        } else {
            PasswordVerdict::Refused
        },
    }
}

/// Checks a login password against the stored hash of the account.
pub fn check_password(stored_hash: &str, password: &str) -> (r: Result<(), AppError>)
    ensures
        r is Ok <==> password_verdict(stored_hash@, password@) is Accepted,
        password_verdict(stored_hash@, password@) matches PasswordVerdict::UnreadableHash(m) ==> (
        r matches Err(AppError::Argon2(e)) && e@ == m),
        password_verdict(stored_hash@, password@) is Refused ==> (r matches Err(
            AppError::Unauthorized(e),
        ) && e@ == "Invalid credentials"@),
{
    match phc_error(stored_hash) {
        Some(m) => Err(AppError::Argon2(m)),
        None => {
            if argon2_verify(stored_hash, password) {
                Ok(())
            } else {
                Err(AppError::Unauthorized(String::from_str("Invalid credentials")))
            }
        },
    }
}

/// Hashes a new password for storage; it succeeds for every password of at
/// most `0xFFFF_FFFF` bytes, and a hashing failure is an `Argon2` error.
/// A hash that is returned is an Argon2id PHC string that `check_password`
/// accepts for the same password.
pub fn hash_password(password: &str) -> (r: Result<String, AppError>)
    ensures
        hashable(password@) ==> r is Ok,
        r matches Ok(h) ==> is_argon2id_phc(h@),
        r matches Ok(h) ==> password_verdict(h@, password@) is Accepted,
        r matches Err(e) ==> e is Argon2,
{
    match argon2_hash(password) {
        Ok(h) => Ok(h),
        Err(m) => Err(AppError::Argon2(m)),
    }
}

} // verus!
