use rustbackendstarter::config::AppConfig;
use rustbackendstarter::error::AppError;
use rustbackendstarter::flows::{
    issue_token_pair, login_on_user, login_on_user_now, login_start, refresh_on_deleted, refresh_on_deleted_now, refresh_on_record_now, register_after_hash, seed_after_hash, refresh_on_record, refresh_start,
    register_on_count, register_on_inserted, register_start, reply_after_save, seed_admin_step,
    LoginStep, RefreshRecord, RefreshStep, RegisterStep, SeedStep, UserCredentials,
};
use rustbackendstarter::password::check_password;
use rustbackendstarter::requests::{LoginRequest, RefreshRequest, RegisterRequest, RegisterResponse};
use rustbackendstarter::responses::DashboardResponse;
use rustbackendstarter::tokens::{authenticate_request, claims_from_token};

const SECRET: &str = "0123456789abcdef0123456789abcdef";

fn now_micros() -> i64 {
    std::time::SystemTime::now().duration_since(std::time::UNIX_EPOCH).unwrap().as_micros() as i64
}

fn login_req(email: &str, password: &str) -> LoginRequest {
    LoginRequest { email: email.to_string(), password: password.to_string() }
}

#[test]
fn test_full_auth_flow() {
    let email = "test-5f0c9e0e-4d3a-4a57-9d53-2f7f0d0b1c11@example.com".to_string();
    let password = "securepassword123";

    // 1. Register
    let reg = RegisterRequest { email: email.clone(), password: password.to_string() };
    let step = register_start(&reg);
    assert!(matches!(&step, RegisterStep::CountEmail { email: e } if *e == email));
    let (id, stored_hash) = match register_on_count(&reg, Ok(0)) {
        RegisterStep::InsertUser { id, email: e, password_hash } => {
            assert_eq!(e, email);
            (id, password_hash)
        }
        _ => panic!("expected an insert"),
    };
    let res = register_on_inserted(id, Ok(())).unwrap();
    assert_eq!(res, RegisterResponse { user_id: id });
    assert_ne!(res.user_id, 0);
    assert_eq!((res.user_id >> 76) & 0xf, 4);

    // 2. Login
    let login = login_req(&email, password);
    assert!(matches!(login_start(&login), LoginStep::LoadUser { .. }));
    let account = UserCredentials { id, password_hash: stored_hash, role: "user".to_string() };
    let now = now_micros();
    let tokens = match login_on_user(&login, Ok(Some(account)), SECRET, now) {
        LoginStep::SaveRefreshToken { token, user_id, expires_at_micros, reply } => {
            assert_eq!(token, reply.refresh_token);
            assert_eq!(user_id, id);
            assert_eq!(expires_at_micros, now + 604_800_000_000);
            reply_after_save(reply, Ok(())).unwrap()
        }
        _ => panic!("expected tokens"),
    };
    assert!(!tokens.access_token.is_empty());
    assert_eq!(tokens.expires_in, 900);

    // 3. Access protected dashboard
    let header = format!("Bearer {}", tokens.access_token);
    let claims = authenticate_request(Some(header.as_bytes()), Some(SECRET)).unwrap();
    let dash = DashboardResponse::for_claims(&claims);
    assert_eq!(dash.role, "user");
    assert_eq!(dash.message, "Welcome, user! You are logged in.");

    // 4. Refresh token, one second later
    let refresh = RefreshRequest { refresh_token: tokens.refresh_token.clone() };
    assert!(matches!(refresh_start(&refresh), RefreshStep::LoadToken { .. }));
    let record = RefreshRecord { user_id: id, role: "user".to_string(), expires_at_micros: now + 604_800_000_000 };
    let later = now + 1_000_000;
    let (uid, role) = match refresh_on_record(&refresh, Ok(Some(record)), later) {
        RefreshStep::DeleteToken { token, user_id, role } => {
            assert_eq!(token, tokens.refresh_token);
            (user_id, role)
        }
        _ => panic!("expected the token to be deleted"),
    };
    let new_tokens = match refresh_on_deleted(uid, &role, Ok(()), SECRET, later) {
        RefreshStep::SaveRefreshToken { reply, .. } => reply_after_save(reply, Ok(())).unwrap(),
        _ => panic!("expected new tokens"),
    };
    assert_ne!(tokens.access_token, new_tokens.access_token);
    assert_ne!(tokens.refresh_token, new_tokens.refresh_token);
}

#[test]
fn test_login_failure() {
    let login = login_req("nonexistent@example.com", "wrongpassword");
    assert!(matches!(login_start(&login), LoginStep::LoadUser { .. }));
    match login_on_user(&login, Ok(None), SECRET, now_micros()) {
        LoginStep::Reply(Err(e)) => {
            assert_eq!(e, AppError::Unauthorized("Invalid credentials".to_string()));
            assert_eq!(e.status_code(), 401);
        }
        _ => panic!("expected a refusal"),
    }
}

#[test]
fn login_with_wrong_password_is_refused() {
    let h = match register_on_count(
        &RegisterRequest { email: "a@example.com".to_string(), password: "rightpassword".to_string() },
        Ok(0),
    ) {
        RegisterStep::InsertUser { password_hash, .. } => password_hash,
        _ => panic!(),
    };
    let account = UserCredentials { id: 7, password_hash: h, role: "user".to_string() };
    let step = login_on_user(&login_req("a@example.com", "wrongpassword"), Ok(Some(account)), SECRET, now_micros());
    assert!(matches!(step, LoginStep::Reply(Err(AppError::Unauthorized(ref m))) if m == "Invalid credentials"));
}

#[test]
fn login_with_unreadable_hash_is_argon2_error() {
    let account = UserCredentials { id: 7, password_hash: "plain".to_string(), role: "user".to_string() };
    let step = login_on_user(&login_req("a@example.com", "x"), Ok(Some(account)), SECRET, now_micros());
    assert!(matches!(step, LoginStep::Reply(Err(AppError::Argon2(_)))));
}

#[test]
fn login_lookup_failure_is_database_error() {
    let step = login_on_user(&login_req("a@example.com", "x"), Err("boom".to_string()), SECRET, now_micros());
    assert!(matches!(step, LoginStep::Reply(Err(AppError::Database(ref m))) if m == "boom"));
}

#[test]
fn login_validation() {
    match login_start(&login_req("not-an-email", "")) {
        LoginStep::Reply(Err(AppError::Validation(m))) => {
            let a = "email: Invalid email format";
            let b = "password: Password is required";
            assert!(m == format!("{}\n{}", a, b) || m == format!("{}\n{}", b, a), "{}", m);
        }
        _ => panic!("expected a validation error"),
    }
    match login_start(&login_req("someone@example.com", "")) {
        LoginStep::Reply(Err(e)) => {
            assert_eq!(e, AppError::Validation("password: Password is required".to_string()));
            assert_eq!(e.status_code(), 422);
        }
        _ => panic!("expected a validation error"),
    }
}

#[test]
fn register_validation() {
    let r = RegisterRequest { email: "bad".to_string(), password: "longenough".to_string() };
    assert!(matches!(register_start(&r), RegisterStep::Reply(Err(AppError::Validation(ref m))) if m == "email: Invalid email format"));
    let r = RegisterRequest { email: "ok@example.com".to_string(), password: "short".to_string() };
    assert!(matches!(register_start(&r), RegisterStep::Reply(Err(AppError::Validation(ref m))) if m == "password: Password must be at least 8 characters"));
    // Eight characters, counted as characters, not bytes.
    let r = RegisterRequest { email: "ok@example.com".to_string(), password: "ééééééé".to_string() };
    assert!(matches!(register_start(&r), RegisterStep::Reply(Err(_))));
    let r = RegisterRequest { email: "ok@example.com".to_string(), password: "éééééééé".to_string() };
    assert!(matches!(register_start(&r), RegisterStep::CountEmail { .. }));
}

#[test]
fn register_taken_email() {
    let r = RegisterRequest { email: "ok@example.com".to_string(), password: "longenough".to_string() };
    match register_on_count(&r, Ok(1)) {
        RegisterStep::Reply(Err(e)) => {
            assert_eq!(e, AppError::BadRequest("Email already registered".to_string()));
            assert_eq!(e.status_code(), 400);
        }
        _ => panic!("expected a refusal"),
    }
    assert!(matches!(register_on_count(&r, Err("down".to_string())), RegisterStep::Reply(Err(AppError::Database(_)))));
    assert_eq!(register_on_inserted(5, Err("dup".to_string())), Err(AppError::Database("dup".to_string())));
}

#[test]
fn refresh_validation_and_expiry() {
    let empty = RefreshRequest { refresh_token: String::new() };
    assert!(matches!(refresh_start(&empty), RefreshStep::Reply(Err(AppError::Validation(ref m))) if m == "refresh_token: refresh_token is required"));
    let req = RefreshRequest { refresh_token: "abc".to_string() };
    let expired = RefreshRecord { user_id: 1, role: "user".to_string(), expires_at_micros: 100 };
    let refused = |s: RefreshStep| matches!(s, RefreshStep::Reply(Err(AppError::Unauthorized(ref m))) if m == "Invalid or expired refresh token");
    assert!(refused(refresh_on_record(&req, Ok(Some(expired.clone())), 100)));
    assert!(refused(refresh_on_record(&req, Ok(None), 100)));
    assert!(matches!(refresh_on_record(&req, Ok(Some(expired)), 99), RefreshStep::DeleteToken { .. }));
    assert!(matches!(refresh_on_record(&req, Err("x".to_string()), 0), RefreshStep::Reply(Err(AppError::Database(_)))));
    assert!(matches!(refresh_on_deleted(1, "user", Err("x".to_string()), SECRET, 0), RefreshStep::Reply(Err(AppError::Database(_)))));
}

#[test]
fn issued_pair_carries_user_id_text() {
    let now = now_micros();
    let p = issue_token_pair(0x0123456789abcdef0123456789abcdef, "admin", SECRET, now).unwrap();
    let c = claims_from_token(&p.reply.access_token, SECRET).unwrap();
    assert_eq!(c.sub, "01234567-89ab-cdef-0123-456789abcdef");
    assert_eq!(c.role, "admin");
    assert_eq!(c.iat as i64, now / 1_000_000);
    assert_eq!(p.reply.refresh_token.len(), 43);
    assert_eq!(p.refresh_expires_at_micros, now + 604_800_000_000);
    assert_eq!(reply_after_save(p.reply, Err("x".to_string())), Err(AppError::Database("x".to_string())));
}

fn config() -> AppConfig {
    AppConfig::from_values(
        Some("db".to_string()),
        Some(SECRET.to_string()),
        Some("root@example.com".to_string()),
        Some("adminpass".to_string()),
        None,
        None,
    )
    .unwrap()
}

#[test]
fn seeding_creates_admin_once() {
    let c = config();
    assert!(matches!(seed_admin_step(Ok(1), &c), Ok(SeedStep::AlreadySeeded)));
    match seed_admin_step(Ok(0), &c) {
        Ok(SeedStep::InsertAdmin { email, password_hash, .. }) => {
            assert_eq!(email, "root@example.com");
            assert!(password_hash.starts_with("$argon2id$"));
            assert_eq!(check_password(&password_hash, "adminpass"), Ok(()));
        }
        _ => panic!("expected an insert"),
    }
    assert!(matches!(seed_admin_step(Err("x".to_string()), &c), Err(AppError::Database(_))));
}

#[test]
fn register_after_hash_outcomes() {
    let r = RegisterRequest { email: "x@example.com".to_string(), password: "longenough".to_string() };
    match register_after_hash(&r, 42, Ok("$argon2id$stub".to_string())) {
        RegisterStep::InsertUser { id, email, password_hash } => {
            assert_eq!((id, email.as_str(), password_hash.as_str()), (42, "x@example.com", "$argon2id$stub"));
        }
        _ => panic!("expected an insert"),
    }
    let failed = register_after_hash(&r, 42, Err(AppError::Argon2("too long".to_string())));
    assert!(matches!(failed, RegisterStep::Reply(Err(AppError::Argon2(ref m))) if m == "too long"));
}

#[test]
fn seed_after_hash_outcomes() {
    let c = config();
    match seed_after_hash(&c, 9, Ok("h".to_string())) {
        Ok(SeedStep::InsertAdmin { id, email, password_hash }) => {
            assert_eq!((id, email.as_str(), password_hash.as_str()), (9, "root@example.com", "h"));
        }
        _ => panic!("expected an insert"),
    }
    assert!(matches!(seed_after_hash(&c, 9, Err(AppError::Argon2("x".to_string()))), Err(AppError::Argon2(_))));
}

#[test]
fn refusals_do_not_need_a_clock() {
    let login = login_req("nonexistent@example.com", "wrongpassword");
    match login_on_user(&login, Ok(None), SECRET, -1) {
        LoginStep::Reply(Err(e)) => assert_eq!(e, AppError::Unauthorized("Invalid credentials".to_string())),
        _ => panic!("expected a refusal"),
    }
}

#[test]
fn registered_hash_is_argon2id() {
    let reg = RegisterRequest { email: "new@example.com".to_string(), password: "longenough".to_string() };
    match register_on_count(&reg, Ok(0)) {
        RegisterStep::InsertUser { password_hash, .. } => {
            assert!(password_hash.starts_with("$argon2id$v=19$"));
            assert_ne!(password_hash, "longenough");
        }
        _ => panic!("expected an insert"),
    }
}

#[test]
fn login_reading_the_clock_itself() {
    let login = login_req("a@example.com", "rightpassword");
    match login_on_user_now(&login, Ok(None), SECRET) {
        LoginStep::Reply(Err(e)) => assert_eq!(e, AppError::Unauthorized("Invalid credentials".to_string())),
        _ => panic!("expected a refusal"),
    }
    match login_on_user_now(&login, Err("down".to_string()), SECRET) {
        LoginStep::Reply(Err(e)) => assert_eq!(e, AppError::Database("down".to_string())),
        _ => panic!("expected a database error"),
    }
    let hash = rustbackendstarter::password::hash_password("rightpassword").unwrap();
    let account = UserCredentials { id: 7, password_hash: hash, role: "user".to_string() };
    let before = now_micros();
    match login_on_user_now(&login, Ok(Some(account)), SECRET) {
        LoginStep::SaveRefreshToken { token, user_id, expires_at_micros, reply } => {
            assert_eq!(token, reply.refresh_token);
            assert_eq!(user_id, 7);
            assert!(expires_at_micros >= before + 604_800_000_000);
            assert!(expires_at_micros <= now_micros() + 604_800_000_000);
            assert_eq!(reply.expires_in, 900);
            let claims = claims_from_token(&reply.access_token, SECRET).unwrap();
            assert_eq!(claims.sub, "00000000-0000-0000-0000-000000000007");
            assert_eq!(claims.role, "user");
        }
        _ => panic!("expected tokens"),
    }
}

#[test]
fn refresh_reading_the_clock_itself() {
    let req = RefreshRequest { refresh_token: "abc".to_string() };
    let refused = |s: RefreshStep| matches!(s, RefreshStep::Reply(Err(AppError::Unauthorized(ref m))) if m == "Invalid or expired refresh token");
    assert!(refused(refresh_on_record_now(&req, Ok(None))));
    assert!(matches!(refresh_on_record_now(&req, Err("x".to_string())), RefreshStep::Reply(Err(AppError::Database(ref m))) if m == "x"));
    let expired = RefreshRecord { user_id: 3, role: "user".to_string(), expires_at_micros: now_micros() - 1 };
    assert!(refused(refresh_on_record_now(&req, Ok(Some(expired)))));
    let live = RefreshRecord { user_id: 3, role: "admin".to_string(), expires_at_micros: now_micros() + 60_000_000 };
    match refresh_on_record_now(&req, Ok(Some(live))) {
        RefreshStep::DeleteToken { token, user_id, role } => {
            assert_eq!((token.as_str(), user_id, role.as_str()), ("abc", 3, "admin"));
        }
        _ => panic!("expected the token to be redeemed"),
    }
    assert!(matches!(refresh_on_deleted_now(3, "admin", Err("gone".to_string()), SECRET), RefreshStep::Reply(Err(AppError::Database(ref m))) if m == "gone"));
    match refresh_on_deleted_now(3, "admin", Ok(()), SECRET) {
        RefreshStep::SaveRefreshToken { token, user_id, reply, .. } => {
            assert_eq!(token, reply.refresh_token);
            assert_eq!(user_id, 3);
            let claims = claims_from_token(&reply.access_token, SECRET).unwrap();
            assert_eq!(claims.role, "admin");
            assert_eq!(claims.exp, claims.iat + 900);
        }
        _ => panic!("expected a new pair"),
    }
}
