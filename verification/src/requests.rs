use vstd::prelude::*;

use crate::error::AppError;

verus! {

/// Body of a sign-up request.
#[derive(Debug, Clone, PartialEq, Eq)]
pub struct RegisterRequest {
    pub email: String,
    pub password: String,
}

/// Body of a login request.
#[derive(Debug, Clone, PartialEq, Eq)]
pub struct LoginRequest {
    pub email: String,
    pub password: String,
}

/// Body of a request that trades a refresh token for a new token pair.
#[derive(Debug, Clone, PartialEq, Eq)]
pub struct RefreshRequest {
    pub refresh_token: String,
}

/// A new access token, a new refresh token, and the access token's lifetime
/// in seconds.
#[derive(Debug, Clone, PartialEq, Eq)]
pub struct TokenPairResponse {
    pub access_token: String,
    pub refresh_token: String,
    pub expires_in: u64,
}

/// The id given to a newly registered account.
#[derive(Debug, Clone, Copy, PartialEq, Eq)]
pub struct RegisterResponse {
    pub user_id: u128,
}

/// One failed validation rule: the field, the rule's code and its message.
#[derive(Debug, Clone, Copy, PartialEq, Eq)]
pub struct FieldFailure {
    pub field: &'static str,
    pub code: &'static str,
    pub message: &'static str,
}

/// Whether `validator`'s `ValidateEmail` accepts a text as an email address.
pub uninterp spec fn email_accepted(s: Seq<char>) -> bool;

/// Checks an address with `validator::ValidateEmail::validate_email`.
/// Trusted: the answer is the named one, `email_accepted`.
#[verifier::external_body]
fn validate_email(s: &str) -> (b: bool)
    ensures
        b == email_accepted(s@),
{
    validator::ValidateEmail::validate_email(&s)
}

/// The line that `validator` writes for a field with one failed rule.
pub open spec fn failure_line(f: FieldFailure) -> Seq<char> {
    f.field@ + ": "@ + f.message@
}

/// Whether a message is how `validator` reports a list of failures (one
/// failure per field): a single failure is its line; two are their lines,
/// in either order, on two lines.
pub open spec fn reports(fs: Seq<FieldFailure>, m: Seq<char>) -> bool {
    &&& fs.len() == 1 ==> m == failure_line(fs[0])
    &&& fs.len() == 2 ==> (m == failure_line(fs[0]) + "\n"@ + failure_line(fs[1]) || m
        == failure_line(fs[1]) + "\n"@ + failure_line(fs[0]))
}

/// Whether a list of failures is one `validator` reports line by line: at
/// most two failures, on different fields.
pub open spec fn reportable(fs: Seq<FieldFailure>) -> bool {
    &&& fs.len() <= 2
    &&& fs.len() == 2 ==> fs[0].field@ != fs[1].field@
}

/// Writes failures the way `validator` does: they are added to a
/// `validator::ValidationErrors` (code and message per field) whose `Display`
/// text is returned. Trusted, for at most two failures on different fields:
/// that text shows each field as `field: message`, one field per line; fields
/// come in the order of a `HashMap`, so for two fields either order may come.
#[verifier::external_body]
fn render_failures(fs: &Vec<FieldFailure>) -> (m: String)
    requires
        reportable(fs@),
    ensures
        reports(fs@, m@),
{
    let mut errors = validator::ValidationErrors::new();
    for f in fs.iter() {
        let e = validator::ValidationError::new(f.code).with_message(
            std::borrow::Cow::Borrowed(f.message),
        );
        errors.add(f.field, e);
    }
    errors.to_string()
}

pub open spec fn email_failure() -> FieldFailure {
    FieldFailure { field: "email", code: "email", message: "Invalid email format" }
}

pub open spec fn password_length_failure() -> FieldFailure {
    FieldFailure {
        field: "password",
        code: "length",
        message: "Password must be at least 8 characters",
    }
}

pub open spec fn password_required_failure() -> FieldFailure {
    FieldFailure { field: "password", code: "length", message: "Password is required" }
}

pub open spec fn refresh_token_required_failure() -> FieldFailure {
    FieldFailure { field: "refresh_token", code: "length", message: "refresh_token is required" }
}

/// The rules that a pair of credentials breaks, in field order: the email
/// must be an address, and the password must be at least `min_chars`
/// characters long, else it fails with `short`.
pub open spec fn credential_failures(
    email: Seq<char>,
    password: Seq<char>,
    min_chars: nat,
    short: FieldFailure,
) -> Seq<FieldFailure> {
    (if email_accepted(email) {
        Seq::<FieldFailure>::empty()
    } else {
        seq![email_failure()]
    }) + (if password.len() >= min_chars {
        Seq::<FieldFailure>::empty()
    } else {
        seq![short]
    })
}

/// The rules a sign-up breaks, in field order: the email must be an address
/// and the password at least 8 characters long.
pub open spec fn register_failures(email: Seq<char>, password: Seq<char>) -> Seq<FieldFailure> {
    credential_failures(email, password, 8, password_length_failure())
}

/// The rules a login breaks: the email must be an address and the password
/// must not be empty.
pub open spec fn login_failures(email: Seq<char>, password: Seq<char>) -> Seq<FieldFailure> {
    credential_failures(email, password, 1, password_required_failure())
}

/// The rules a refresh request breaks: the token must not be empty.
pub open spec fn refresh_failures(token: Seq<char>) -> Seq<FieldFailure> {
    if token.len() >= 1 {
        Seq::<FieldFailure>::empty()
    } else {
        seq![refresh_token_required_failure()]
    }
}

/// The outcome of validation for a list of broken rules: `Ok` when there is
/// none, otherwise a `Validation` error whose message reports them.
pub open spec fn validation_outcome(fs: Seq<FieldFailure>, r: Result<(), AppError>) -> bool {
    &&& r is Ok <==> fs.len() == 0
    &&& r matches Err(e) ==> (e matches AppError::Validation(m) && reports(fs, m@))
}

fn finish_validation(fs: Vec<FieldFailure>) -> (r: Result<(), AppError>)
    requires
        reportable(fs@),
    ensures
        validation_outcome(fs@, r),
{
    if fs.len() == 0 {
        Ok(())
    } else {
        Err(AppError::Validation(render_failures(&fs)))
    }
}

/// Checks an email and a password against the rules of `credential_failures`.
fn validate_credentials(email: &str, password: &str, min_chars: usize, short: FieldFailure) -> (r:
    Result<(), AppError>)
    requires
        short.field@ == "password"@,
    ensures
        validation_outcome(credential_failures(email@, password@, min_chars as nat, short), r),
{
    let mut fs: Vec<FieldFailure> = Vec::new();
    if !validate_email(email) {
        fs.push(FieldFailure { field: "email", code: "email", message: "Invalid email format" });
    }
    if password.unicode_len() < min_chars {
        fs.push(short);
    }
    assert(fs@ =~= credential_failures(email@, password@, min_chars as nat, short));
    proof {
        reveal_strlit("email");
        reveal_strlit("password");
        assert("email"@.len() == 5 && "password"@.len() == 8);
    }
    finish_validation(fs)
}

impl RegisterRequest {
    /// Checks the sign-up rules.
    pub fn validate(&self) -> (r: Result<(), AppError>)
        ensures
            validation_outcome(register_failures(self.email@, self.password@), r),
    {
        validate_credentials(
            self.email.as_str(),
            self.password.as_str(),
            8,
            FieldFailure {
                field: "password",
                code: "length",
                message: "Password must be at least 8 characters",
            },
        )
    }
}

impl LoginRequest {
    /// Checks the login rules.
    pub fn validate(&self) -> (r: Result<(), AppError>)
        ensures
            validation_outcome(login_failures(self.email@, self.password@), r),
    {
        validate_credentials(
            self.email.as_str(),
            self.password.as_str(),
            1,
            FieldFailure { field: "password", code: "length", message: "Password is required" },
        )
    }
}

impl RefreshRequest {
    /// Checks the refresh rules.
    pub fn validate(&self) -> (r: Result<(), AppError>)
        ensures
            validation_outcome(refresh_failures(self.refresh_token@), r),
    {
        let mut fs: Vec<FieldFailure> = Vec::new();
        if self.refresh_token.as_str().unicode_len() < 1 {
            fs.push(
                FieldFailure {
                    field: "refresh_token",
                    code: "length",
                    message: "refresh_token is required",
                },
            );
        }
        assert(fs@ =~= refresh_failures(self.refresh_token@));
        finish_validation(fs)
    }
}

} // verus!
