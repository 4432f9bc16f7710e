use vstd::prelude::*;
use vstd::string::*;

use crate::clock::{clock_gave_none, clock_ok, is_clock_reading, clock_now, REFRESH_TOKEN_MICROS};
use crate::config::AppConfig;
use crate::error::AppError;
use crate::ids::{is_v4_id, lemma_v4_id_not_nil, new_user_id, user_id_text, uuid_text};
use crate::password::{
    check_password, hash_password, hashable, is_argon2id_phc, password_verdict, PasswordVerdict,
};
use crate::requests::{
    login_failures, refresh_failures, register_failures, validation_outcome, LoginRequest,
    RefreshRequest, RegisterRequest, RegisterResponse, TokenPairResponse,
};
use crate::tokens::{
    access_token_at, generate_refresh_token, issued_access_token, is_refresh_token,
    ACCESS_TOKEN_SECS,
};

verus! {

/// Whole seconds of a clock reading.
pub open spec fn now_secs(now_micros: i64) -> usize {
    (now_micros / 1_000_000) as usize
}

/// Whether a token pair is the one issued at `now_micros` to a user with a
/// role: a fresh access token for the user, a fresh refresh token valid for
/// `REFRESH_TOKEN_SECS`, and `expires_in` the access token's lifetime.
pub open spec fn issued_pair(
    reply: TokenPairResponse,
    refresh_expires_at: i64,
    user_id: u128,
    role: Seq<char>,
    secret: Seq<char>,
    now_micros: i64,
) -> bool {
    &&& issued_access_token(
        reply.access_token@,
        uuid_text(user_id),
        role,
        secret,
        now_secs(now_micros),
    )
    &&& is_refresh_token(reply.refresh_token@)
    &&& reply.expires_in == 900
    &&& refresh_expires_at == now_micros + REFRESH_TOKEN_MICROS
}

/// A token pair ready to be handed out, with the expiry of its refresh token.
pub struct IssuedPair {
    pub reply: TokenPairResponse,
    pub refresh_expires_at_micros: i64,
}

/// Issues an access token and a refresh token for a user at a clock reading
/// (`access_token_at` and `generate_refresh_token`).
pub fn issue_token_pair(user_id: u128, role: &str, jwt_secret: &str, now_micros: i64) -> (r: Result<
    IssuedPair,
    AppError,
>)
    requires
        clock_ok(now_micros),
    ensures
        r matches Ok(p) && issued_pair(
            p.reply,
            p.refresh_expires_at_micros,
            user_id,
            role@,
            jwt_secret@,
            now_micros,
        ),
{
    let now = (now_micros / 1_000_000) as usize;
    let sub = user_id_text(user_id);
    let access_token = match access_token_at(sub.as_str(), role, jwt_secret, now) {
        Ok(t) => t,
        Err(e) => {
            return Err(e);
        },
    };
    let refresh_token = generate_refresh_token();
    let reply = TokenPairResponse {
        access_token,
        refresh_token,
        expires_in: ACCESS_TOKEN_SECS as u64,
    };
    Ok(IssuedPair { reply, refresh_expires_at_micros: now_micros + REFRESH_TOKEN_MICROS })
}

/// The answer once the new refresh token has (or has not) been saved.
pub fn reply_after_save(reply: TokenPairResponse, saved: Result<(), String>) -> (r: Result<
    TokenPairResponse,
    AppError,
>)
    ensures
        saved is Ok ==> r == Ok::<TokenPairResponse, AppError>(reply),
        saved matches Err(m) ==> (r matches Err(AppError::Database(e)) && e@ == m@),
{
    match saved {
        Ok(()) => Ok(reply),
        Err(m) => Err(AppError::Database(m)),
    }
}

// ---------------------------------------------------------------- login

/// A stored account as login reads it.
#[derive(Debug, Clone, PartialEq, Eq)]
pub struct UserCredentials {
    pub id: u128,
    pub password_hash: String,
    pub role: String,
}

/// What the login flow asks for next.
pub enum LoginStep {
    /// Load the account with this email.
    LoadUser { email: String },
    /// Save this refresh token for the user until the given time, then answer
    /// with `reply`.
    SaveRefreshToken { token: String, user_id: u128, expires_at_micros: i64, reply: TokenPairResponse },
    /// Answer the request.
    Reply(Result<TokenPairResponse, AppError>),
}

/// The first step of a login: the request must pass validation, then the
/// account is looked up by email.
pub fn login_start(req: &LoginRequest) -> (s: LoginStep)
    ensures
        login_failures(req.email@, req.password@).len() == 0 ==> (s matches LoginStep::LoadUser {
            email,
        } && email@ == req.email@),
        login_failures(req.email@, req.password@).len() > 0 ==> (s matches LoginStep::Reply(Err(e))
            && validation_outcome(login_failures(req.email@, req.password@), Err(e))),
{
    match req.validate() {
        Ok(()) => LoginStep::LoadUser { email: req.email.clone() },
        Err(e) => LoginStep::Reply(Err(e)),
    }
}

/// How a login goes once the account lookup has answered.
pub enum LoginDecision {
    LookupFailed(Seq<char>),
    NoAccount,
    UnreadableHash(Seq<char>),
    WrongPassword,
    Issue,
}

pub open spec fn login_decision(found: Result<Option<UserCredentials>, String>, password: Seq<char>) -> LoginDecision {
    match found {
        Err(m) => LoginDecision::LookupFailed(m@),
        Ok(None) => LoginDecision::NoAccount,
        Ok(Some(u)) => match password_verdict(u.password_hash@, password) {
            PasswordVerdict::UnreadableHash(m) => LoginDecision::UnreadableHash(m),
            PasswordVerdict::Refused => LoginDecision::WrongPassword,
            PasswordVerdict::Accepted => LoginDecision::Issue,
        },
    }
}

/// The answer to a refused login: a lookup failure is a `Database` error, an
/// unknown email or a wrong password is `Unauthorized("Invalid credentials")`,
/// and an unreadable stored hash is an `Argon2` error.
pub open spec fn login_refused_as(decision: LoginDecision, s: LoginStep) -> bool {
    match decision {
        LoginDecision::LookupFailed(m) => s matches LoginStep::Reply(Err(AppError::Database(e)))
            && e@ == m,
        LoginDecision::NoAccount => s matches LoginStep::Reply(Err(AppError::Unauthorized(e)))
            && e@ == "Invalid credentials"@,
        LoginDecision::UnreadableHash(m) => s matches LoginStep::Reply(Err(AppError::Argon2(e)))
            && e@ == m,
        LoginDecision::WrongPassword => s matches LoginStep::Reply(
            Err(AppError::Unauthorized(e)),
        ) && e@ == "Invalid credentials"@,
        LoginDecision::Issue => false,
    }
}

/// Whether a login step saves and answers the token pair issued at
/// `now_micros` to the account that the lookup found.
pub open spec fn login_issues_at(
    found: Result<Option<UserCredentials>, String>,
    jwt_secret: Seq<char>,
    now_micros: i64,
    s: LoginStep,
) -> bool {
    &&& s matches LoginStep::SaveRefreshToken { token, user_id, expires_at_micros, reply }
    &&& found matches Ok(Some(u))
    &&& user_id == u.id
    &&& token@ == reply.refresh_token@
    &&& issued_pair(reply, expires_at_micros, u.id, u.role@, jwt_secret, now_micros)
}

/// The account of a login once the lookup has answered, where the password
/// is accepted; the refusal otherwise (see `login_refused_as`).
fn login_check(req: &LoginRequest, found: Result<Option<UserCredentials>, String>) -> (r: Result<
    UserCredentials,
    AppError,
>)
    ensures
        login_decision(found, req.password@) is Issue ==> (found matches Ok(Some(u)) && r == Ok::<
            UserCredentials,
            AppError,
        >(u)),
        !(login_decision(found, req.password@) is Issue) ==> (r matches Err(e) && login_refused_as(
            login_decision(found, req.password@),
            LoginStep::Reply(Err(e)),
        )),
{
    let user = match found {
        Err(m) => {
            return Err(AppError::Database(m));
        },
        Ok(None) => {
            return Err(AppError::Unauthorized(String::from_str("Invalid credentials")));
        },
        Ok(Some(u)) => u,
    };
    match check_password(user.password_hash.as_str(), req.password.as_str()) {
        Ok(()) => Ok(user),
        Err(e) => Err(e),
    }
}

/// Issues the token pair of a login at a usable clock reading.
fn login_issue(user: UserCredentials, jwt_secret: &str, now_micros: i64) -> (s: LoginStep)
    requires
        clock_ok(now_micros),
    ensures
        login_issues_at(Ok(Some(user)), jwt_secret@, now_micros, s),
{
    match issue_token_pair(user.id, user.role.as_str(), jwt_secret, now_micros) {
        Ok(p) => LoginStep::SaveRefreshToken {
            token: p.reply.refresh_token.clone(),
            user_id: user.id,
            expires_at_micros: p.refresh_expires_at_micros,
            reply: p.reply,
        },
        Err(e) => LoginStep::Reply(Err(e)),
    }
}

/// The login step once the account lookup has answered, at a given clock
/// reading: a refused login is answered as `login_refused_as` says, and an
/// accepted password gets the token pair issued at `now_micros`, whose
/// refresh token is saved before the answer. The clock reading must be
/// usable only where tokens are issued.
pub fn login_on_user(
    req: &LoginRequest,
    found: Result<Option<UserCredentials>, String>,
    jwt_secret: &str,
    now_micros: i64,
) -> (s: LoginStep)
    requires
        login_decision(found, req.password@) is Issue ==> clock_ok(now_micros),
    ensures
        !(login_decision(found, req.password@) is Issue) ==> login_refused_as(
            login_decision(found, req.password@),
            s,
        ),
        login_decision(found, req.password@) is Issue ==> login_issues_at(
            found,
            jwt_secret@,
            now_micros,
            s,
        ),
{
    match login_check(req, found) {
        Ok(user) => login_issue(user, jwt_secret, now_micros),
        Err(e) => LoginStep::Reply(Err(e)),
    }
}

/// The login step once the account lookup has answered, reading the system
/// clock only where tokens are issued: a refused login is answered as
/// `login_refused_as` says, whatever the clock; an accepted password gets the
/// token pair issued at the current time, or an `Internal` error where the
/// system clock gives no usable reading.
pub fn login_on_user_now(
    req: &LoginRequest,
    found: Result<Option<UserCredentials>, String>,
    jwt_secret: &str,
) -> (s: LoginStep)
    ensures
        !(login_decision(found, req.password@) is Issue) ==> login_refused_as(
            login_decision(found, req.password@),
            s,
        ),
        login_decision(found, req.password@) is Issue ==> ((exists|t: i64|
            clock_ok(t) && is_clock_reading(t) && #[trigger] login_issues_at(
                found,
                jwt_secret@,
                t,
                s,
            )) || (clock_gave_none() && (s matches LoginStep::Reply(Err(AppError::Internal(m)))
            && m@ == "system clock out of range"@))),
{
    match login_check(req, found) {
        Ok(user) => match clock_now() {
            Some(t) => {
                let s = login_issue(user, jwt_secret, t);
                assert(clock_ok(t) && is_clock_reading(t) && login_issues_at(found, jwt_secret@, t, s));
                s
            },
            None => LoginStep::Reply(Err(AppError::Internal(String::from_str("system clock out of range")))),
        },
        Err(e) => LoginStep::Reply(Err(e)),
    }
}

// ---------------------------------------------------------------- refresh

/// A stored refresh token as the refresh flow reads it: its owner, the owner's
/// role and its expiry.
#[derive(Debug, Clone, PartialEq, Eq)]
pub struct RefreshRecord {
    pub user_id: u128,
    pub role: String,
    pub expires_at_micros: i64,
}

/// What the refresh flow asks for next.
pub enum RefreshStep {
    /// Load the stored refresh token with this text.
    LoadToken { token: String },
    /// Delete the presented refresh token, then issue a new pair to its owner.
    DeleteToken { token: String, user_id: u128, role: String },
    /// Save this new refresh token for the user until the given time, then
    /// answer with `reply`.
    SaveRefreshToken { token: String, user_id: u128, expires_at_micros: i64, reply: TokenPairResponse },
    /// Answer the request.
    Reply(Result<TokenPairResponse, AppError>),
}

/// The first step of a refresh: the request must pass validation, then the
/// presented token is looked up.
pub fn refresh_start(req: &RefreshRequest) -> (s: RefreshStep)
    ensures
        refresh_failures(req.refresh_token@).len() == 0 ==> (s matches RefreshStep::LoadToken {
            token,
        } && token@ == req.refresh_token@),
        refresh_failures(req.refresh_token@).len() > 0 ==> (s matches RefreshStep::Reply(Err(e))
            && validation_outcome(refresh_failures(req.refresh_token@), Err(e))),
{
    match req.validate() {
        Ok(()) => RefreshStep::LoadToken { token: req.refresh_token.clone() },
        Err(e) => RefreshStep::Reply(Err(e)),
    }
}

/// Whether a stored refresh token is still valid at a clock reading.
pub open spec fn refresh_token_live(rec: RefreshRecord, now_micros: i64) -> bool {
    rec.expires_at_micros > now_micros
}

/// The message for an unknown or expired refresh token.
pub open spec fn refresh_refused_message() -> Seq<char> {
    "Invalid or expired refresh token"@
}

/// The refresh step for a token lookup at a clock reading: a lookup failure
/// is a `Database` error; an unknown or expired token is `Unauthorized`; a
/// live token is deleted before anything is issued.
pub open spec fn refresh_answer(
    token: Seq<char>,
    found: Result<Option<RefreshRecord>, String>,
    now_micros: i64,
    s: RefreshStep,
) -> bool {
    match found {
        Err(m) => s matches RefreshStep::Reply(Err(AppError::Database(e))) && e@ == m@,
        Ok(None) => s matches RefreshStep::Reply(Err(AppError::Unauthorized(e))) && e@
            == refresh_refused_message(),
        Ok(Some(rec)) => if refresh_token_live(rec, now_micros) {
            s matches RefreshStep::DeleteToken { token: t, user_id, role } && t@ == token
                && user_id == rec.user_id && role@ == rec.role@
        } else {
            s matches RefreshStep::Reply(Err(AppError::Unauthorized(e))) && e@
                == refresh_refused_message()
        },
    }
}

/// The refresh step once the token lookup has answered, at a clock reading
/// (see `refresh_answer`).
pub fn refresh_on_record(
    req: &RefreshRequest,
    found: Result<Option<RefreshRecord>, String>,
    now_micros: i64,
) -> (s: RefreshStep)
    ensures
        refresh_answer(req.refresh_token@, found, now_micros, s),
{
    match found {
        Err(m) => RefreshStep::Reply(Err(AppError::Database(m))),
        Ok(None) => RefreshStep::Reply(
            Err(AppError::Unauthorized(String::from_str("Invalid or expired refresh token"))),
        ),
        Ok(Some(rec)) => {
            if rec.expires_at_micros > now_micros {
                RefreshStep::DeleteToken {
                    token: req.refresh_token.clone(),
                    user_id: rec.user_id,
                    role: rec.role,
                }
            } else {
                RefreshStep::Reply(
                    Err(AppError::Unauthorized(String::from_str("Invalid or expired refresh token"))),
                )
            }
        },
    }
}

/// The refresh step once the token lookup has answered, reading the system
/// clock only where a stored token was found: a lookup failure or an unknown
/// token is answered as `refresh_answer` says, whatever the clock; a found
/// token is judged at the current time, or the answer is an `Internal` error
/// where the system clock gives no usable reading.
pub fn refresh_on_record_now(req: &RefreshRequest, found: Result<Option<RefreshRecord>, String>) -> (s:
    RefreshStep)
    ensures
        found matches Err(m) ==> (s matches RefreshStep::Reply(Err(AppError::Database(e))) && e@
            == m@),
        found matches Ok(None) ==> (s matches RefreshStep::Reply(Err(AppError::Unauthorized(e)))
            && e@ == refresh_refused_message()),
        found matches Ok(Some(_)) ==> ((exists|t: i64|
            clock_ok(t) && is_clock_reading(t) && #[trigger] refresh_answer(
                req.refresh_token@,
                found,
                t,
                s,
            )) || (clock_gave_none() && (s matches RefreshStep::Reply(Err(AppError::Internal(m)))
            && m@ == "system clock out of range"@))),
{
    let now = match found {
        Ok(Some(_)) => match clock_now() {
            Some(t) => t,
            None => {
                return RefreshStep::Reply(
                    Err(AppError::Internal(String::from_str("system clock out of range"))),
                );
            },
        },
        _ => 0,
    };
    let s = refresh_on_record(req, found, now);
    assert(refresh_answer(req.refresh_token@, found, now, s));
    s
}

/// Whether a refresh step saves and answers the token pair issued at
/// `now_micros` to the owner of the redeemed token.
pub open spec fn refresh_issues_at(
    user_id: u128,
    role: Seq<char>,
    jwt_secret: Seq<char>,
    now_micros: i64,
    s: RefreshStep,
) -> bool {
    &&& s matches RefreshStep::SaveRefreshToken { token, user_id: uid, expires_at_micros, reply }
    &&& uid == user_id
    &&& token@ == reply.refresh_token@
    &&& issued_pair(reply, expires_at_micros, user_id, role, jwt_secret, now_micros)
}

/// The refresh step once the presented token has (or has not) been deleted: a
/// failure is a `Database` error; otherwise a fresh pair is issued to the
/// owner and its refresh token is saved before the answer.
pub fn refresh_on_deleted(
    user_id: u128,
    role: &str,
    deleted: Result<(), String>,
    jwt_secret: &str,
    now_micros: i64,
) -> (s: RefreshStep)
    requires
        clock_ok(now_micros),
    ensures
        deleted matches Err(m) ==> (s matches RefreshStep::Reply(Err(AppError::Database(e))) && e@
            == m@),
        deleted is Ok ==> refresh_issues_at(user_id, role@, jwt_secret@, now_micros, s),
{
    match deleted {
        Err(m) => RefreshStep::Reply(Err(AppError::Database(m))),
        Ok(()) => match issue_token_pair(user_id, role, jwt_secret, now_micros) {
            Ok(p) => RefreshStep::SaveRefreshToken {
                token: p.reply.refresh_token.clone(),
                user_id,
                expires_at_micros: p.refresh_expires_at_micros,
                reply: p.reply,
            },
            Err(e) => RefreshStep::Reply(Err(e)),
        },
    }
}

/// The refresh step once the presented token has (or has not) been deleted,
/// reading the system clock only where a pair is issued: a failure is a
/// `Database` error, whatever the clock; otherwise the pair issued at the
/// current time, or an `Internal` error where the system clock gives no
/// usable reading.
pub fn refresh_on_deleted_now(user_id: u128, role: &str, deleted: Result<(), String>, jwt_secret: &str) -> (s:
    RefreshStep)
    ensures
        deleted matches Err(m) ==> (s matches RefreshStep::Reply(Err(AppError::Database(e))) && e@
            == m@),
        deleted is Ok ==> ((exists|t: i64|
            clock_ok(t) && is_clock_reading(t) && #[trigger] refresh_issues_at(
                user_id,
                role@,
                jwt_secret@,
                t,
                s,
            )) || (clock_gave_none() && (s matches RefreshStep::Reply(Err(AppError::Internal(m)))
            && m@ == "system clock out of range"@))),
{
    match deleted {
        Err(m) => RefreshStep::Reply(Err(AppError::Database(m))),
        Ok(()) => match clock_now() {
            Some(t) => {
                let s = refresh_on_deleted(user_id, role, Ok(()), jwt_secret, t);
                assert(clock_ok(t) && is_clock_reading(t) && refresh_issues_at(
                    user_id,
                    role@,
                    jwt_secret@,
                    t,
                    s,
                ));
                s
            },
            None => RefreshStep::Reply(
                Err(AppError::Internal(String::from_str("system clock out of range"))),
            ),
        },
    }
}

// ---------------------------------------------------------------- register

/// What the sign-up flow asks for next.
pub enum RegisterStep {
    /// Count the accounts with this email.
    CountEmail { email: String },
    /// Store a new account with this id, email and password hash.
    InsertUser { id: u128, email: String, password_hash: String },
    /// Answer the request.
    Reply(Result<RegisterResponse, AppError>),
}

/// The first step of a sign-up: the request must pass validation, then the
/// email is checked for an existing account.
pub fn register_start(req: &RegisterRequest) -> (s: RegisterStep)
    ensures
        register_failures(req.email@, req.password@).len() == 0 ==> (
        s matches RegisterStep::CountEmail { email } && email@ == req.email@),
        register_failures(req.email@, req.password@).len() > 0 ==> (s matches RegisterStep::Reply(Err(e))
            && validation_outcome(register_failures(req.email@, req.password@), Err(e))),
{
    match req.validate() {
        Ok(()) => RegisterStep::CountEmail { email: req.email.clone() },
        Err(e) => RegisterStep::Reply(Err(e)),
    }
}

/// The sign-up step once the accounts with the email have been counted: a
/// failure is a `Database` error, a taken email is `BadRequest`, and
/// otherwise the password is hashed and a new account with a fresh id is
/// stored. The stored hash is an Argon2id PHC string that accepts the password
/// that was registered.
pub fn register_on_count(req: &RegisterRequest, count: Result<i64, String>) -> (s: RegisterStep)
    ensures
        count matches Err(m) ==> (s matches RegisterStep::Reply(Err(AppError::Database(e))) && e@
            == m@),
        count matches Ok(n) && n > 0 ==> (s matches RegisterStep::Reply(
            Err(AppError::BadRequest(e)),
        ) && e@ == "Email already registered"@),
        count matches Ok(n) && n <= 0 ==> (s is InsertUser || s matches RegisterStep::Reply(
            Err(AppError::Argon2(_)),
        )),
        count matches Ok(n) && n <= 0 && hashable(req.password@) ==> s is InsertUser,
        s matches RegisterStep::InsertUser { id, email, password_hash } ==> (count matches Ok(n)
            && n <= 0 && email@ == req.email@ && is_argon2id_phc(password_hash@)
            && password_verdict(password_hash@, req.password@) is Accepted && is_v4_id(id) && id != 0),
{
    match count {
        Err(m) => RegisterStep::Reply(Err(AppError::Database(m))),
        Ok(n) => {
            if n > 0 {
                return RegisterStep::Reply(
                    Err(AppError::BadRequest(String::from_str("Email already registered"))),
                );
            }
            let id = new_user_id();
            proof {
                lemma_v4_id_not_nil(id);
            }
            register_after_hash(req, id, hash_password(req.password.as_str()))
        },
    }
}

/// The sign-up step once the password has been hashed: a hashing failure is
/// answered as it is; a hash makes the new account with the given id.
pub fn register_after_hash(req: &RegisterRequest, id: u128, hashed: Result<String, AppError>) -> (s:
    RegisterStep)
    ensures
        hashed matches Err(e) ==> s == RegisterStep::Reply(Err(e)),
        hashed matches Ok(h) ==> (s matches RegisterStep::InsertUser { id: i, email, password_hash }
            && i == id && email@ == req.email@ && password_hash == h),
{
    match hashed {
        Ok(h) => RegisterStep::InsertUser { id, email: req.email.clone(), password_hash: h },
        Err(e) => RegisterStep::Reply(Err(e)),
    }
}

/// The answer once the new account has (or has not) been stored.
pub fn register_on_inserted(id: u128, inserted: Result<(), String>) -> (r: Result<
    RegisterResponse,
    AppError,
>)
    ensures
        inserted is Ok ==> r == Ok::<RegisterResponse, AppError>(RegisterResponse { user_id: id }),
        inserted matches Err(m) ==> (r matches Err(AppError::Database(e)) && e@ == m@),
{
    match inserted {
        Ok(()) => Ok(RegisterResponse { user_id: id }),
        Err(m) => Err(AppError::Database(m)),
    }
}

// ---------------------------------------------------------------- admin seeding

/// What seeding the administrator account asks for.
pub enum SeedStep {
    /// An administrator exists already: nothing to do.
    AlreadySeeded,
    /// Store an administrator with this id, email and password hash.
    InsertAdmin { id: u128, email: String, password_hash: String },
}

/// Decides, from the number of administrators, whether the configured
/// administrator must be created; its stored hash is an Argon2id PHC string
/// that accepts the configured password.
pub fn seed_admin_step(admin_count: Result<i64, String>, config: &AppConfig) -> (r: Result<
    SeedStep,
    AppError,
>)
    ensures
        admin_count matches Err(m) ==> (r matches Err(AppError::Database(e)) && e@ == m@),
        admin_count matches Ok(n) && n > 0 ==> (r matches Ok(s) && s is AlreadySeeded),
        admin_count matches Ok(n) && n <= 0 ==> ((r matches Ok(SeedStep::InsertAdmin {
            id,
            email,
            password_hash,
        }) && email@ == config.admin_email@ && is_argon2id_phc(password_hash@) && password_verdict(
            password_hash@,
            config.admin_password@,
        ) is Accepted && is_v4_id(id) && id != 0) || (r matches Err(AppError::Argon2(_)))),
        admin_count matches Ok(n) && n <= 0 && hashable(config.admin_password@) ==> (r matches Ok(
            s,
        ) && s is InsertAdmin),
{
    match admin_count {
        Err(m) => Err(AppError::Database(m)),
        Ok(n) => {
            if n > 0 {
                return Ok(SeedStep::AlreadySeeded);
            }
            let id = new_user_id();
            proof {
                lemma_v4_id_not_nil(id);
            }
            seed_after_hash(config, id, hash_password(config.admin_password.as_str()))
        },
    }
}

/// The seeding step once the administrator password has been hashed: a
/// hashing failure is returned as it is; a hash makes the administrator with
/// the given id and the configured email.
pub fn seed_after_hash(config: &AppConfig, id: u128, hashed: Result<String, AppError>) -> (r: Result<
    SeedStep,
    AppError,
>)
    ensures
        hashed matches Err(e) ==> r == Err::<SeedStep, AppError>(e),
        hashed matches Ok(h) ==> (r matches Ok(SeedStep::InsertAdmin { id: i, email, password_hash })
            && i == id && email@ == config.admin_email@ && password_hash == h),
{
    match hashed {
        Ok(h) => Ok(SeedStep::InsertAdmin { id, email: config.admin_email.clone(), password_hash: h }),
        Err(e) => Err(e),
    }
}

} // verus!
