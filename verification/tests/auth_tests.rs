use rustbackendstarter::error::AppError;
use rustbackendstarter::password::{check_password, hash_password};
use rustbackendstarter::tokens::{
    access_token_at, authenticate_request, bearer_token, claims_from_fields, claims_from_token, generate_access_token,
    generate_refresh_token, require_admin, Claims,
};

const SECRET: &str = "0123456789abcdef0123456789abcdef";

fn now_secs() -> usize {
    std::time::SystemTime::now().duration_since(std::time::UNIX_EPOCH).unwrap().as_secs() as usize
}

#[test]
fn issued_token_decodes_to_its_claims() {
    let now = now_secs();
    let token = access_token_at("user-1", "user", SECRET, now).unwrap();
    assert_eq!(token.split('.').count(), 3);
    let c = claims_from_token(&token, SECRET).unwrap();
    assert_eq!(c, Claims { sub: "user-1".to_string(), role: "user".to_string(), exp: now + 900, iat: now });
}

#[test]
fn token_is_deterministic_in_its_inputs() {
    let a = access_token_at("u", "admin", SECRET, 1_700_000_000).unwrap();
    let b = access_token_at("u", "admin", SECRET, 1_700_000_000).unwrap();
    let c = access_token_at("u", "admin", SECRET, 1_700_000_001).unwrap();
    assert_eq!(a, b);
    assert_ne!(a, c);
}

#[test]
fn token_under_other_secret_is_refused() {
    let token = access_token_at("u", "user", SECRET, now_secs()).unwrap();
    let r = claims_from_token(&token, "another secret of at least 32 bytes!");
    assert!(matches!(r, Err(AppError::Jwt(_))));
}

#[test]
fn expired_token_is_refused() {
    let token = access_token_at("u", "user", SECRET, 1000).unwrap();
    assert!(matches!(claims_from_token(&token, SECRET), Err(AppError::Jwt(_))));
}

#[test]
fn malformed_token_is_refused() {
    assert!(matches!(claims_from_token("not.a.token", SECRET), Err(AppError::Jwt(_))));
    assert!(matches!(claims_from_token("", SECRET), Err(AppError::Jwt(_))));
}

#[test]
fn claims_need_every_member() {
    let full = (Some("s".to_string()), Some("r".to_string()), Some(5u64), Some(1u64));
    assert_eq!(
        claims_from_fields(full).unwrap(),
        Claims { sub: "s".to_string(), role: "r".to_string(), exp: 5, iat: 1 }
    );
    let missing_role = (Some("s".to_string()), None, Some(5u64), Some(1u64));
    assert!(matches!(claims_from_fields(missing_role), Err(AppError::Jwt(_))));
}

#[test]
fn bearer_token_parsing() {
    assert_eq!(bearer_token(b"Bearer abc.def"), Some("abc.def".to_string()));
    assert_eq!(bearer_token(b"bEARER abc"), Some("abc".to_string()));
    assert_eq!(bearer_token(b"Bearer  abc"), Some("abc".to_string()));
    assert_eq!(bearer_token(b"Bearer \t abc"), Some("abc".to_string()));
    assert_eq!(bearer_token(b"Bearer a\tb"), Some("a\tb".to_string()));
    assert_eq!(bearer_token(b"Bearer "), Some(String::new()));
    assert_eq!(bearer_token(b"Bearer   "), Some(String::new()));
    assert_eq!(bearer_token(b"Bearer"), None);
    assert_eq!(bearer_token(b"Basic abc"), None);
    assert_eq!(bearer_token(b"Bearerabc"), None);
    assert_eq!(bearer_token(b"Bearer ab\x7fc"), None);
    assert_eq!(bearer_token(&[66, 101, 97, 114, 101, 114, 32, 0xc3, 0xa9]), None);
}

#[test]
fn authenticate_request_outcomes() {
    let missing = authenticate_request(None, Some(SECRET));
    assert_eq!(missing, Err(AppError::Unauthorized("Missing or malformed Authorization header".to_string())));
    let malformed = authenticate_request(Some(b"Token x"), Some(SECRET));
    assert_eq!(malformed, Err(AppError::Unauthorized("Missing or malformed Authorization header".to_string())));
    let no_secret = authenticate_request(Some(b"Bearer x"), None);
    assert_eq!(no_secret, Err(AppError::Internal("JWT secret not in extensions".to_string())));

    let now = now_secs();
    let token = access_token_at("user-9", "admin", SECRET, now).unwrap();
    let header = format!("Bearer {}", token);
    let c = authenticate_request(Some(header.as_bytes()), Some(SECRET)).unwrap();
    assert_eq!(c.sub, "user-9");
    assert_eq!(c.role, "admin");
    assert_eq!(c.exp - c.iat, 900);
    assert!(matches!(authenticate_request(Some(b"Bearer x"), Some(SECRET)), Err(AppError::Jwt(_))));
}

#[test]
fn admin_guard() {
    let admin = Claims { sub: "a".to_string(), role: "admin".to_string(), exp: 2, iat: 1 };
    assert_eq!(require_admin(admin.clone()).unwrap().0, admin);
    let user = Claims { sub: "a".to_string(), role: "Admin".to_string(), exp: 2, iat: 1 };
    let e = require_admin(user).unwrap_err();
    assert_eq!(e, AppError::Forbidden("Admin access required".to_string()));
    assert_eq!(e.status_code(), 403);
}

#[test]
fn refresh_tokens_are_fresh_base64url() {
    let a = generate_refresh_token();
    let b = generate_refresh_token();
    assert_eq!(a.len(), 43);
    assert!(a.chars().all(|c| c.is_ascii_alphanumeric() || c == '-' || c == '_'));
    assert_ne!(a, b);
}

#[test]
fn password_hash_round_trip() {
    let h = hash_password("securepassword123").unwrap();
    assert!(h.starts_with("$argon2id$"));
    assert_eq!(check_password(&h, "securepassword123"), Ok(()));
    assert_eq!(
        check_password(&h, "wrongpassword"),
        Err(AppError::Unauthorized("Invalid credentials".to_string()))
    );
    assert_ne!(hash_password("securepassword123").unwrap(), h);
}

#[test]
fn unreadable_hash_is_argon2_error() {
    let r = check_password("not a phc string", "x");
    assert!(matches!(r, Err(AppError::Argon2(_))));
    assert_eq!(r.unwrap_err().status_code(), 500);
}

#[test]
fn error_status_codes() {
    assert_eq!(AppError::BadRequest(String::new()).status_code(), 400);
    assert_eq!(AppError::Unauthorized(String::new()).status_code(), 401);
    assert_eq!(AppError::Jwt(String::new()).status_code(), 401);
    assert_eq!(AppError::Validation(String::new()).status_code(), 422);
    assert_eq!(AppError::Database(String::new()).status_code(), 500);
    assert_eq!(AppError::Internal(String::new()).status_code(), 500);
}

#[test]
fn token_issued_now_is_accepted() {
    let before = now_secs();
    let token = generate_access_token("user-2", "user", SECRET).unwrap();
    let c = claims_from_token(&token, SECRET).unwrap();
    assert!(c.iat >= before && c.iat <= now_secs());
    assert_eq!(c.exp, c.iat + 900);
    assert_eq!(c.sub, "user-2");
}

#[test]
fn clock_readings_usable_for_tokens() {
    use_clock();
}

fn use_clock() {
    assert_eq!(rustbackendstarter::clock::usable_clock_reading(1_700_000_000_000_000), Some(1_700_000_000_000_000));
    assert_eq!(rustbackendstarter::clock::usable_clock_reading(-1), None);
    assert_eq!(rustbackendstarter::clock::usable_clock_reading(i64::MAX), None);
    assert!(rustbackendstarter::clock::clock_now().is_some());
}
