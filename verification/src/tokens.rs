use vstd::prelude::*;
use vstd::string::*;

use crate::clock::{
    clock_before_leeway, clock_now, clock_ok, clock_past_leeway, is_clock_reading,
};
use crate::error::AppError;
use crate::text::{is_white_space, trim_start};

verus! {

/// Seconds an access token stays valid.
pub const ACCESS_TOKEN_SECS: i64 = 15 * 60;

/// Seconds a refresh token stays valid.
pub const REFRESH_TOKEN_SECS: i64 = 7 * 24 * 3600;

/// What an access token says of its holder: the user id (`sub`), the role,
/// and the expiry and issue times in seconds since the Unix epoch.
#[derive(Debug, Clone, PartialEq, Eq)]
pub struct Claims {
    pub sub: String,
    pub role: String,
    pub exp: usize,
    pub iat: usize,
}

/// Claims of a holder whose role is `admin`.
#[derive(Debug, Clone, PartialEq, Eq)]
pub struct AdminClaims(pub Claims);

#[verifier::external_type_specification]
#[verifier::external_body]
pub struct ExJwtError(jsonwebtoken::errors::Error);

/// The `sub`, `role`, `exp` and `iat` members of a token's payload, each where
/// present with the right JSON type.
pub type ClaimFields = (Option<Seq<char>>, Option<Seq<char>>, Option<u64>, Option<u64>);

/// The token that `jsonwebtoken::encode` makes with the default header (HS256)
/// for the claims object `{"sub", "role", "exp", "iat"}` (in that order) under
/// the given secret.
pub uninterp spec fn hs256_jwt(sub: Seq<char>, role: Seq<char>, exp: u64, iat: u64, secret: Seq<char>) -> Seq<char>;

/// What `jsonwebtoken::decode` with `Validation::default()` finds in a token
/// under a secret, leaving the expiry check against the clock aside: `None`
/// where the token is malformed, not HS256, or not signed with the secret;
/// otherwise the claim members of its payload.
pub uninterp spec fn jwt_claims(token: Seq<char>, secret: Seq<char>) -> Option<ClaimFields>;

/// Claim members that are all present.
pub open spec fn present_fields(sub: Seq<char>, role: Seq<char>, exp: u64, iat: u64) -> ClaimFields {
    (Some(sub), Some(role), Some(exp), Some(iat))
}

/// The characters of a compact token: the URL-safe base64 alphabet and `.`.
pub open spec fn token_char(c: char) -> bool {
    ||| base64url_char(c)
    ||| c == '.'
}

/// A character of the URL-safe base64 alphabet.
pub open spec fn base64url_char(c: char) -> bool {
    ||| 'A' as u32 <= c as u32 <= 'Z' as u32
    ||| 'a' as u32 <= c as u32 <= 'z' as u32
    ||| '0' as u32 <= c as u32 <= '9' as u32
    ||| c == '-'
    ||| c == '_'
}

/// Signs the claims with `jsonwebtoken::encode(&Header::default(), ..,
/// &EncodingKey::from_secret(..))`, the claims given as a JSON object whose
/// members keep the order `sub`, `role`, `exp`, `iat`. Trusted: HS256
/// signing cannot fail (the key family matches and the claims serialise);
/// the token is the named one; it is made of base64url parts joined by `.`
/// (so it is not empty);
/// and decoding it under the same secret gives back the same claims.
#[verifier::external_body]
fn encode_hs256(sub: &str, role: &str, exp: u64, iat: u64, secret: &str) -> (r: Result<
    String,
    jsonwebtoken::errors::Error,
>)
    ensures
        r is Ok,
        r matches Ok(t) ==> t@ == hs256_jwt(sub@, role@, exp, iat, secret@),
        r matches Ok(t) ==> t@.len() > 0,
        r matches Ok(t) ==> forall|i: int| 0 <= i < t@.len() ==> token_char(#[trigger] t@[i]),
        r matches Ok(t) ==> jwt_claims(t@, secret@) == Some(present_fields(sub@, role@, exp, iat)),
{
    let mut claims = serde_json::Map::new();
    claims.insert("sub".to_string(), serde_json::Value::from(sub));
    claims.insert("role".to_string(), serde_json::Value::from(role));
    claims.insert("exp".to_string(), serde_json::Value::from(exp));
    claims.insert("iat".to_string(), serde_json::Value::from(iat));
    let key = jsonwebtoken::EncodingKey::from_secret(secret.as_bytes());
    jsonwebtoken::encode(&jsonwebtoken::Header::default(), &claims, &key)
}

/// Decodes a token with `jsonwebtoken::decode` (payload read as a JSON object)
/// under `DecodingKey::from_secret` and `Validation::default()`, then picks
/// the `sub`, `role` (strings) and `exp`, `iat` (unsigned integers) members;
/// an error is returned as its text. Trusted: on success the members are
/// those named by `jwt_claims`. Whether it succeeds also depends on the
/// clock (expiry), so failure is not tied to the arguments. The payload is
/// read as a JSON object, so where a member occurs twice the last one counts.
#[verifier::external_body]
fn decode_hs256(token: &str, secret: &str) -> (r: Result<
    (Option<String>, Option<String>, Option<u64>, Option<u64>),
    String,
>)
    ensures
        r matches Ok(f) ==> jwt_claims(token@, secret@) == Some(fields_view(f)),
{
    let key = jsonwebtoken::DecodingKey::from_secret(secret.as_bytes());
    let validation = jsonwebtoken::Validation::default();
    let data = jsonwebtoken::decode::<serde_json::Map<String, serde_json::Value>>(
        token,
        &key,
        &validation,
    ).map_err(|e| e.to_string())?;
    let c = data.claims;
    let text = |k: &str| c.get(k).and_then(|v| v.as_str()).map(|s| s.to_string());
    let number = |k: &str| c.get(k).and_then(|v| v.as_u64());
    Ok((text("sub"), text("role"), number("exp"), number("iat")))
}

pub open spec fn opt_view(o: Option<String>) -> Option<Seq<char>> {
    match o {
        Some(s) => Some(s@),
        None => None,
    }
}

pub open spec fn fields_view(f: (Option<String>, Option<String>, Option<u64>, Option<u64>)) -> ClaimFields {
    (opt_view(f.0), opt_view(f.1), f.2, f.3)
}

/// The claim members that a set of claims is encoded as.
pub open spec fn claim_fields(c: Claims) -> ClaimFields {
    (Some(c.sub@), Some(c.role@), Some(c.exp as u64), Some(c.iat as u64))
}

/// Whether `token` is the access token issued at `now` to `user_id` with
/// `role` under `secret`: it expires `ACCESS_TOKEN_SECS` later and decodes
/// under the secret to exactly these claims.
pub open spec fn issued_access_token(
    token: Seq<char>,
    user_id: Seq<char>,
    role: Seq<char>,
    secret: Seq<char>,
    now: usize,
) -> bool {
    &&& token == hs256_jwt(user_id, role, (now + 900) as u64, now as u64, secret)
    &&& token.len() > 0
    &&& forall|i: int| 0 <= i < token.len() ==> token_char(#[trigger] token[i])
    &&& jwt_claims(token, secret) == Some(present_fields(user_id, role, (now + 900) as u64, now as u64))
}

/// Issues an access token at a clock reading `now` (seconds since the Unix
/// epoch): `sub` is the user id, `iat` is `now` and `exp` is
/// `now + ACCESS_TOKEN_SECS`, signed with HS256 under the secret.
pub fn access_token_at(user_id: &str, role: &str, jwt_secret: &str, now: usize) -> (r: Result<
    String,
    AppError,
>)
    requires
        now + 900 <= usize::MAX,
    ensures
        r matches Ok(t) && issued_access_token(t@, user_id@, role@, jwt_secret@, now),
{
    let exp = now + (ACCESS_TOKEN_SECS as usize);
    match encode_hs256(user_id, role, exp as u64, now as u64, jwt_secret) {
        Ok(t) => Ok(t),
        Err(_) => Err(AppError::Internal(String::from_str("token signing failed"))),
    }
}

/// Issues an access token now, by the system clock: the issue time is a
/// reading of the system clock, in whole seconds. A clock reading outside the
/// range where token times can be computed is an `Internal` error.
pub fn generate_access_token(user_id: &str, role: &str, jwt_secret: &str) -> (r: Result<
    String,
    AppError,
>)
    ensures
        r matches Ok(t) ==> exists|now: usize| issued_access_token(t@, user_id@, role@, jwt_secret@, now),
        r matches Ok(t) ==> exists|now_micros: i64|
            clock_ok(now_micros) && is_clock_reading(now_micros) && #[trigger] issued_access_token(
                t@,
                user_id@,
                role@,
                jwt_secret@,
                (now_micros / 1_000_000) as usize,
            ),
        r matches Err(e) ==> e is Internal,
        r is Err ==> crate::clock::clock_gave_none(),
{
    match clock_now() {
        Some(now_micros) => {
            let now = (now_micros / 1_000_000) as usize;
            let r = access_token_at(user_id, role, jwt_secret, now);
            assert(r matches Ok(t) && issued_access_token(t@, user_id@, role@, jwt_secret@, now));
            r
        },
        None => Err(AppError::Internal(String::from_str("system clock out of range"))),
    }
}

/// Builds claims from the decoded members of a token's payload; fails with
/// `AppError::Jwt` where a member is missing or of the wrong type, or a time
/// does not fit a `usize`.
pub fn claims_from_fields(f: (Option<String>, Option<String>, Option<u64>, Option<u64>)) -> (r:
    Result<Claims, AppError>)
    ensures
        r is Ok <==> (f.0 is Some && f.1 is Some && f.2 is Some && f.3 is Some && f.2->0
            <= usize::MAX && f.3->0 <= usize::MAX),
        r matches Ok(c) ==> claim_fields(c) == fields_view(f),
        r matches Err(e) ==> e is Jwt,
{
    match f {
        (Some(sub), Some(role), Some(exp), Some(iat)) => {
            if exp > usize::MAX as u64 || iat > usize::MAX as u64 {
                return Err(AppError::Jwt(String::from_str("token times do not fit")));
            }
            Ok(Claims { sub, role, exp: exp as usize, iat: iat as usize })
        },
        _ => Err(AppError::Jwt(String::from_str("token claims are malformed"))),
    }
}

/// The message of the refusal of a token while the system clock stands less
/// than the validation leeway past the Unix epoch.
pub open spec fn early_clock_message() -> Seq<char> {
    "system clock stands before the Unix epoch"@
}

/// Whether `jsonwebtoken` refused a token under a secret with a message: the
/// decoding wrapper can answer these arguments with that error.
pub closed spec fn decoder_refused(token: Seq<char>, secret: Seq<char>, m: Seq<char>) -> bool {
    exists|t: &str, k: &str, e: String|
        t@ == token && k@ == secret && e@ == m && #[trigger] call_ensures(
            decode_hs256,
            (t, k),
            Err::<(Option<String>, Option<String>, Option<u64>, Option<u64>), String>(e),
        )
}

/// Whether a correctly signed token lacks a claim member, or has a time
/// that does not fit a `usize`.
pub open spec fn claims_incomplete(token: Seq<char>, secret: Seq<char>) -> bool {
    &&& jwt_claims(token, secret) matches Some(v)
    &&& !(v.0 is Some && v.1 is Some && (v.2 is Some && v.2->0 <= usize::MAX) && (v.3 is Some
        && v.3->0 <= usize::MAX))
}

/// The grounds on which a token may be refused with a `Jwt` error and this
/// message: the system clock is too early for the expiry check,
/// `jsonwebtoken` refused the token with this message (bad signature or
/// format, or expired by its clock), or the signed claims are incomplete.
pub open spec fn jwt_rejected(token: Seq<char>, secret: Seq<char>, m: Seq<char>) -> bool {
    ||| clock_before_leeway() && m == early_clock_message()
    ||| decoder_refused(token, secret, m)
    ||| claims_incomplete(token, secret)
}

/// Decodes and checks an access token under the signing secret. Failure of
/// the signature, format or expiry check is `AppError::Jwt`; so is a system
/// clock that stands less than the validation leeway past the Unix epoch, on
/// which the expiry check cannot be made. No other refusal is added: a `Jwt`
/// error comes only on the grounds of `jwt_rejected`.
pub fn claims_from_token(token: &str, jwt_secret: &str) -> (r: Result<Claims, AppError>)
    ensures
        r matches Ok(c) ==> jwt_claims(token@, jwt_secret@) == Some(claim_fields(c)),
        r matches Err(e) ==> e is Jwt,
        r matches Err(AppError::Jwt(m)) ==> jwt_rejected(token@, jwt_secret@, m@),
{
    if !clock_past_leeway() {
        proof {
            reveal_strlit("system clock stands before the Unix epoch");
        }
        return Err(AppError::Jwt(String::from_str("system clock stands before the Unix epoch")));
    }
    let decode = decode_hs256;
    match decode(token, jwt_secret) {
        Ok(f) => claims_from_fields(f),
        Err(msg) => {
            assert(call_ensures(
                decode_hs256,
                (token, jwt_secret),
                Err::<(Option<String>, Option<String>, Option<u64>, Option<u64>), String>(msg),
            ));
            assert(decoder_refused(token@, jwt_secret@, msg@));
            Err(AppError::Jwt(msg))
        },
    }
}

/// A byte allowed in header text (`HeaderValue::to_str`): tab or visible ASCII.
pub open spec fn header_text_byte(b: u8) -> bool {
    b == 9 || (32 <= b && b < 127)
}

/// An ASCII byte in lower case.
pub open spec fn ascii_lower(b: u8) -> u8 {
    if 65 <= b <= 90 {
        (b + 32) as u8
    } else {
        b
    }
}

/// Whether an `Authorization` value opens with the scheme `Bearer`, in any
/// letter case, and a space.
pub open spec fn has_bearer_scheme(v: Seq<u8>) -> bool {
    &&& v.len() > 6
    &&& v[6] == 32
    &&& ascii_lower(v[0]) == 98
    &&& ascii_lower(v[1]) == 101
    &&& ascii_lower(v[2]) == 97
    &&& ascii_lower(v[3]) == 114
    &&& ascii_lower(v[4]) == 101
    &&& ascii_lower(v[5]) == 114
}

/// The text of a byte string of ASCII bytes.
pub open spec fn ascii_text(b: Seq<u8>) -> Seq<char> {
    b.map_values(|x: u8| x as char)
}

/// The bearer token that an `Authorization` header value carries, as the
/// `headers` crate's `Authorization<Bearer>` reads it: the scheme `Bearer`
/// (any case) and a space, all bytes header text; the token is the rest,
/// without its leading white space (`Bearer::token`).
pub open spec fn bearer_token_of(v: Seq<u8>) -> Option<Seq<char>> {
    if has_bearer_scheme(v) && (forall|i: int| 0 <= i < v.len() ==> #[trigger] header_text_byte(v[i])) {
        Some(trim_start(ascii_text(v.skip(7))))
    } else {
        None
    }
}

/// Appends a character (`String::push`).
#[verifier::external_body]
pub(crate) fn push_char(s: &mut String, c: char)
    ensures
        final(s)@ == old(s)@.push(c),
{
    s.push(c);
}

/// The bearer token in an `Authorization` header value, if it carries one.
pub fn bearer_token(value: &[u8]) -> (r: Option<String>)
    ensures
        opt_view(r) == bearer_token_of(value@),
{
    let n = value.len();
    if n <= 6 || value[6] != 32 {
        return None;
    }
    let scheme_ok = lower_byte(value[0]) == 98 && lower_byte(value[1]) == 101 && lower_byte(value[2])
        == 97 && lower_byte(value[3]) == 114 && lower_byte(value[4]) == 101 && lower_byte(value[5])
        == 114;
    if !scheme_ok {
        return None;
    }
    let mut i: usize = 0;
    while i < n
        invariant
            n == value@.len(),
            i <= n,
            forall|j: int| 0 <= j < i ==> #[trigger] header_text_byte(value@[j]),
        decreases n - i,
    {
        let b = value[i];
        if !(b == 9 || (32 <= b && b < 127)) {
            assert(!header_text_byte(value@[i as int]));
            return None;
        }
        i = i + 1;
    }
    let mut start: usize = 7;
    assert(value@.subrange(7, n as int) =~= value@.skip(7));
    while start < n && (value[start] == 32 || value[start] == 9)
        invariant
            n == value@.len(),
            7 <= start <= n,
            forall|j: int| 0 <= j < n ==> #[trigger] header_text_byte(value@[j]),
            trim_start(ascii_text(value@.skip(7))) == trim_start(
                ascii_text(value@.subrange(start as int, n as int)),
            ),
        decreases n - start,
    {
        proof {
            let b = value@[start as int];
            lemma_header_byte_white_space(b);
            assert(ascii_text(value@.subrange(start as int, n as int)).drop_first() =~= ascii_text(
                value@.subrange(start + 1, n as int),
            ));
        }
        start = start + 1;
    }
    proof {
        if start < n {
            lemma_header_byte_white_space(value@[start as int]);
        }
    }
    let mut token = String::new();
    let mut k: usize = start;
    while k < n
        invariant
            n == value@.len(),
            start <= k <= n,
            token@ == ascii_text(value@.subrange(start as int, k as int)),
        decreases n - k,
    {
        let b = value[k];
        push_char(&mut token, b as char);
        assert(ascii_text(value@.subrange(start as int, k + 1)) =~= ascii_text(
            value@.subrange(start as int, k as int),
        ).push(b as char));
        k = k + 1;
    }
    Some(token)
}

/// Among header-text bytes, only tab and space are white space.
proof fn lemma_header_byte_white_space(b: u8)
    requires
        header_text_byte(b),
    ensures
        is_white_space(b as char) <==> (b == 9 || b == 32),
{
    assert((b as char) as u32 == b as u32);
}

fn lower_byte(b: u8) -> (r: u8)
    ensures
        r == ascii_lower(b),
{
    if 65 <= b && b <= 90 {
        b + 32
    } else {
        b
    }
}

/// The message for a request without a usable bearer token.
pub open spec fn missing_header_message() -> Seq<char> {
    "Missing or malformed Authorization header"@
}

/// Authenticates a request from its first `Authorization` header value and the
/// configured signing secret: no bearer token is `Unauthorized`, no secret is
/// `Internal`, and otherwise the token decides.
pub fn authenticate_request(header: Option<&[u8]>, jwt_secret: Option<&str>) -> (r: Result<
    Claims,
    AppError,
>)
    ensures
        (header is None || bearer_token_of(header->0@) is None) ==> (r matches Err(
            AppError::Unauthorized(m),
        ) && m@ == missing_header_message()),
        (header matches Some(h) && bearer_token_of(h@) is Some && jwt_secret is None) ==> (r matches Err(
            AppError::Internal(m),
        ) && m@ == "JWT secret not in extensions"@),
        r matches Ok(c) ==> header matches Some(h) && jwt_secret matches Some(s) && jwt_claims(
            bearer_token_of(h@)->0,
            s@,
        ) == Some(claim_fields(c)),
        (header matches Some(h) && bearer_token_of(h@) is Some && jwt_secret is Some) ==> (r is Ok
            || r matches Err(AppError::Jwt(_))),
        r matches Err(AppError::Jwt(m)) ==> header matches Some(h) && jwt_secret matches Some(s)
            && jwt_rejected(bearer_token_of(h@)->0, s@, m@),
{
    let token = match header {
        Some(h) => match bearer_token(h) {
            Some(t) => t,
            None => {
                return Err(
                    AppError::Unauthorized(
                        String::from_str("Missing or malformed Authorization header"),
                    ),
                );
            },
        },
        None => {
            return Err(
                AppError::Unauthorized(String::from_str("Missing or malformed Authorization header")),
            );
        },
    };
    let secret = match jwt_secret {
        Some(s) => s,
        None => {
            return Err(AppError::Internal(String::from_str("JWT secret not in extensions")));
        },
    };
    claims_from_token(token.as_str(), secret)
}

/// Admits only holders whose role is `admin`; others are `Forbidden`.
pub fn require_admin(claims: Claims) -> (r: Result<AdminClaims, AppError>)
    ensures
        claims.role@ == "admin"@ ==> (r matches Ok(a) && a.0 == claims),
        claims.role@ != "admin"@ ==> (r matches Err(AppError::Forbidden(m)) && m@
            == "Admin access required"@),
{
    if claims.role != String::from_str("admin") {
        return Err(AppError::Forbidden(String::from_str("Admin access required")));
    }
    Ok(AdminClaims(claims))
}

/// The URL-safe base64 text, without padding, of a byte string.
pub uninterp spec fn base64url_unpadded(bytes: Seq<u8>) -> Seq<char>;

/// Encodes with `base64`'s `URL_SAFE_NO_PAD` engine. Trusted: the text is the
/// named one, has `ceil(4n/3)` characters for `n` bytes, all from the URL-safe
/// alphabet, and is the text of no other byte string (decoding it gives the
/// bytes back).
#[verifier::external_body]
fn encode_base64url(bytes: &[u8]) -> (r: String)
    ensures
        r@ == base64url_unpadded(bytes@),
        forall|other: Seq<u8>| #[trigger] base64url_unpadded(other) == r@ ==> other == bytes@,
        r@.len() == (4 * bytes@.len() + 2) / 3,
        forall|i: int| 0 <= i < r@.len() ==> base64url_char(#[trigger] r@[i]),
{
    base64::Engine::encode(&base64::engine::general_purpose::URL_SAFE_NO_PAD, bytes)
}

/// 32 random bytes from `rand::thread_rng()` (`Rng::fill`). Trusted for the
/// length only.
#[verifier::external_body]
fn random_bytes_32() -> (r: Vec<u8>)
    ensures
        r@.len() == 32,
{
    let mut bytes = [0u8; 32];
    rand::Rng::fill(&mut rand::thread_rng(), &mut bytes);
    bytes.to_vec()
}

/// Whether a text is a refresh token as they are issued: the unpadded URL-safe
/// base64 text of 32 bytes (of exactly one byte string), 43 characters long.
pub open spec fn is_refresh_token(t: Seq<char>) -> bool {
    &&& t.len() == 43
    &&& forall|i: int| 0 <= i < t.len() ==> base64url_char(#[trigger] t[i])
    &&& exists|b: Seq<u8>| encodes_refresh_bytes(t, b)
}

/// Whether a text is the base64url text of these 32 bytes and of no others.
pub open spec fn encodes_refresh_bytes(t: Seq<char>, b: Seq<u8>) -> bool {
    &&& b.len() == 32
    &&& t == base64url_unpadded(b)
    &&& forall|other: Seq<u8>| #[trigger] base64url_unpadded(other) == t ==> other == b
}

/// A fresh refresh token: 32 random bytes in unpadded URL-safe base64.
pub fn generate_refresh_token() -> (t: String)
    ensures
        is_refresh_token(t@),
{
    let bytes = random_bytes_32();
    let t = encode_base64url(bytes.as_slice());
    assert(encodes_refresh_bytes(t@, bytes@));
    t
}

} // verus!
