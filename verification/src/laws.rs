use vstd::prelude::*;

use crate::clock::{clock_before_leeway, clock_gave_none, clock_ok, is_clock_reading};
use crate::error::AppError;
use crate::flows::{
    issued_pair, login_decision, login_on_user_now, refresh_on_deleted_now, LoginDecision,
    LoginStep, RefreshStep, UserCredentials,
};
use crate::ids::uuid_text;
use crate::pagination::{page_window, PaginationParams};
use crate::password::{password_verdict, PasswordVerdict};
use crate::requests::{refresh_failures, LoginRequest, TokenPairResponse};
use crate::tokens::{
    ascii_lower, ascii_text, bearer_token_of, claim_fields, has_bearer_scheme, header_text_byte,
    authenticate_request, decoder_refused, early_clock_message, is_refresh_token,
    issued_access_token, jwt_claims, present_fields, token_char, Claims,
};

verus! {

/// The bytes of `Bearer ` followed by an ASCII token.
pub open spec fn bearer_header(token: Seq<char>) -> Seq<u8> {
    seq![66u8, 101u8, 97u8, 114u8, 101u8, 114u8, 32u8] + token.map_values(|c: char| (c as u32) as u8)
}

/// An `Authorization` value made of `Bearer ` and a token of compact-token
/// characters carries exactly that token.
pub proof fn lemma_bearer_header_round_trip(token: Seq<char>)
    requires
        forall|i: int| 0 <= i < token.len() ==> token_char(#[trigger] token[i]),
    ensures
        bearer_token_of(bearer_header(token)) == Some(token),
{
    let v = bearer_header(token);
    assert(has_bearer_scheme(v)) by {
        assert(v[0] == 66u8 && v[1] == 101u8 && v[2] == 97u8 && v[3] == 114u8);
        assert(v[4] == 101u8 && v[5] == 114u8 && v[6] == 32u8);
        assert(ascii_lower(66u8) == 98u8);
    }
    assert forall|i: int| 0 <= i < v.len() implies #[trigger] header_text_byte(v[i]) by {
        if i >= 7 {
            assert(token_char(token[i - 7]));
            assert(v[i] == (token[i - 7] as u32) as u8);
        }
    }
    assert(ascii_text(v.skip(7)) =~= token) by {
        assert forall|i: int| 0 <= i < token.len() implies ascii_text(v.skip(7))[i] == token[i] by {
            assert(token_char(token[i]));
            assert(v.skip(7)[i] == (token[i] as u32) as u8);
            let b = (token[i] as u32) as u8;
            assert(b as u32 == token[i] as u32);
            vstd::utf8::char_u32_cast(token[i], b as u32);
            assert(b as char == token[i]);
        }
    }
}

/// Presenting an issued access token as `Bearer <token>` under the same
/// secret yields, when it is accepted, exactly the claims it was issued with:
/// the user id, the role, `iat` = the issue time and `exp` = 15 minutes later.
pub proof fn lemma_presented_access_token_gives_issued_claims(
    token: Seq<char>,
    user_id: Seq<char>,
    role: Seq<char>,
    secret: Seq<char>,
    now: usize,
    accepted: Claims,
)
    requires
        now + 900 <= usize::MAX,
        issued_access_token(token, user_id, role, secret, now),
        jwt_claims(bearer_token_of(bearer_header(token))->0, secret) == Some(claim_fields(accepted)),
    ensures
        accepted.sub@ == user_id,
        accepted.role@ == role,
        accepted.iat == now,
        accepted.exp == now + 900,
{
    lemma_bearer_header_round_trip(token);
}

/// A token pair's `expires_in` is the lifetime of its access token:
/// `exp - iat` of the claims it carries.
pub proof fn lemma_expires_in_is_access_token_lifetime(
    reply: TokenPairResponse,
    refresh_expires_at: i64,
    user_id: u128,
    role: Seq<char>,
    secret: Seq<char>,
    now_micros: i64,
)
    requires
        clock_ok(now_micros),
        issued_pair(reply, refresh_expires_at, user_id, role, secret, now_micros),
    ensures
        jwt_claims(reply.access_token@, secret) matches Some(f) && f.2 matches Some(exp)
            && f.3 matches Some(iat) && exp - iat == reply.expires_in,
{
}

/// A password whose stored hash accepts it (as every hash stored at sign-up
/// or seeding does) lets its account log in: the login flow goes on to issue
/// tokens.
pub proof fn lemma_registered_password_logs_in(account: UserCredentials, password: Seq<char>)
    requires
        password_verdict(account.password_hash@, password) is Accepted,
    ensures
        login_decision(Ok(Some(account)), password) is Issue,
{
}

/// Every refresh token that is issued is accepted by the validation of a
/// refresh request.
pub proof fn lemma_issued_refresh_token_passes_validation(token: Seq<char>)
    requires
        is_refresh_token(token),
    ensures
        refresh_failures(token).len() == 0,
{
}

/// Under one secret, an access token is determined by its claims and
/// determines them: two issued tokens are equal exactly when they were issued
/// to the same user, with the same role, in the same second.
pub proof fn lemma_access_tokens_match_their_claims(
    t1: Seq<char>,
    t2: Seq<char>,
    user1: Seq<char>,
    user2: Seq<char>,
    role1: Seq<char>,
    role2: Seq<char>,
    secret: Seq<char>,
    now1: usize,
    now2: usize,
)
    requires
        now1 + 900 <= usize::MAX,
        now2 + 900 <= usize::MAX,
        issued_access_token(t1, user1, role1, secret, now1),
        issued_access_token(t2, user2, role2, secret, now2),
    ensures
        t1 == t2 <==> (user1 == user2 && role1 == role2 && now1 == now2),
{
}

/// The number of administrators among accounts with these roles.
pub open spec fn count_admins(roles: Seq<Seq<char>>) -> int
    decreases roles.len(),
{
    if roles.len() == 0 {
        0
    } else {
        count_admins(roles.drop_last()) + (if roles.last() == "admin"@ {
            1int
        } else {
            0int
        })
    }
}

/// Once seeding has stored an administrator, the accounts count at least one
/// administrator, so a later seeding step (which creates one only for a count
/// of 0 or less) does nothing.
pub proof fn lemma_seeding_happens_once(roles: Seq<Seq<char>>)
    ensures
        count_admins(roles.push("admin"@)) >= 1,
{
    lemma_count_admins_nonneg(roles);
    assert(roles.push("admin"@).drop_last() =~= roles);
}

proof fn lemma_count_admins_nonneg(roles: Seq<Seq<char>>)
    ensures
        count_admins(roles) >= 0,
    decreases roles.len(),
{
    if roles.len() > 0 {
        lemma_count_admins_nonneg(roles.drop_last());
    }
}

/// The stored refresh tokens after a refresh that presented one token and was
/// given another: the presented one is deleted and the new one saved.
pub open spec fn after_refresh(stored: Set<Seq<char>>, presented: Seq<char>, issued: Seq<char>) -> Set<
    Seq<char>,
> {
    stored.remove(presented).insert(issued)
}

/// A refresh token is redeemed at most once: after the refresh that presented
/// it (and issued a different token), it is no longer stored, so presenting it
/// again finds nothing and is refused.
pub proof fn lemma_refresh_token_redeemed_once(
    stored: Set<Seq<char>>,
    presented: Seq<char>,
    issued: Seq<char>,
)
    requires
        issued != presented,
    ensures
        !after_refresh(stored, presented, issued).contains(presented),
{
}

/// An accepted login gets its token pair issued at the current time,
/// whatever the account's role: for a reading `t` of the system clock taken
/// by the call, the access token carries `iat` = `t` in whole seconds and
/// `exp` = `iat` + 15 minutes, and the refresh token expires 7 days after `t`.
/// The only other answer is an `Internal` error where the clock gave no
/// usable reading.
pub proof fn lemma_login_issues_at_clock_reading(
    req: LoginRequest,
    found: Result<Option<UserCredentials>, String>,
    jwt_secret: &str,
    s: LoginStep,
)
    requires
        call_ensures(login_on_user_now, (&req, found, jwt_secret), s),
        login_decision(found, req.password@) is Issue,
    ensures
        (s matches LoginStep::Reply(Err(AppError::Internal(_))) && clock_gave_none()) || (
        s matches LoginStep::SaveRefreshToken { token, user_id, expires_at_micros, reply }
            && found matches Ok(Some(u)) && user_id == u.id && token@ == reply.refresh_token@
            && exists|t: i64|
            #![trigger is_clock_reading(t)]
            is_clock_reading(t) && 0 <= t && expires_at_micros == t + 604_800_000_000
                && jwt_claims(reply.access_token@, jwt_secret@) == Some(
                present_fields(
                    uuid_text(u.id),
                    u.role@,
                    (t / 1_000_000 + 900) as u64,
                    (t / 1_000_000) as u64,
                ),
            )),
{
}

/// Redeeming a refresh token issues the new pair at the current time: for a
/// reading `t` of the system clock taken by the call, the access token carries
/// `iat` = `t` in whole seconds and `exp` = `iat` + 15 minutes, and the new
/// refresh token expires 7 days after `t`. The only other answers are the
/// deletion's `Database` error and an `Internal` error where the clock gave
/// no usable reading.
pub proof fn lemma_refresh_issues_at_clock_reading(
    user_id: u128,
    role: &str,
    deleted: Result<(), String>,
    jwt_secret: &str,
    s: RefreshStep,
)
    requires
        call_ensures(refresh_on_deleted_now, (user_id, role, deleted, jwt_secret), s),
        deleted is Ok,
    ensures
        (s matches RefreshStep::Reply(Err(AppError::Internal(_))) && clock_gave_none()) || (
        s matches RefreshStep::SaveRefreshToken { token, user_id: uid, expires_at_micros, reply }
            && uid == user_id && token@ == reply.refresh_token@ && exists|t: i64|
            #![trigger is_clock_reading(t)]
            is_clock_reading(t) && 0 <= t && expires_at_micros == t + 604_800_000_000
                && jwt_claims(reply.access_token@, jwt_secret@) == Some(
                present_fields(
                    uuid_text(user_id),
                    role@,
                    (t / 1_000_000 + 900) as u64,
                    (t / 1_000_000) as u64,
                ),
            )),
{
}

/// An access token issued at `now` under a secret and presented as
/// `Bearer <token>` with that secret is accepted with exactly its claims
/// (`iat` = `now`, `exp` = `now` + 15 minutes), unless `jsonwebtoken` itself
/// refused it (it refuses a token past its expiry and leeway by its clock)
/// or the system clock stands before the validation leeway: authentication
/// adds no refusal of its own.
pub proof fn lemma_issued_token_authenticates(
    token: Seq<char>,
    user_id: Seq<char>,
    role: Seq<char>,
    now: usize,
    header: &[u8],
    jwt_secret: &str,
    r: Result<Claims, AppError>,
)
    requires
        now + 900 <= usize::MAX,
        issued_access_token(token, user_id, role, jwt_secret@, now),
        header@ == bearer_header(token),
        call_ensures(authenticate_request, (Some(header), Some(jwt_secret)), r),
    ensures
        r matches Ok(c) ==> c.sub@ == user_id && c.role@ == role && c.iat == now && c.exp == now
            + 900,
        r is Ok || (r matches Err(AppError::Jwt(m)) && ((clock_before_leeway() && m@
            == early_clock_message()) || decoder_refused(token, jwt_secret@, m@))),
{
    lemma_bearer_header_round_trip(token);
}

/// The page served is the one asked for where the request is in range: a
/// page size in `1..=100` is kept, a smaller one becomes 1 and a larger one
/// 100; a page number of at least 1 is kept, a smaller one becomes 1; and
/// the offset skips the earlier pages.
pub proof fn lemma_page_window_serves_requested_page(params: PaginationParams, w: crate::pagination::PageWindow)
    requires
        call_ensures(page_window, (&params,), w),
    ensures
        1 <= params.per_page <= 100 ==> w.per_page == params.per_page,
        params.per_page < 1 ==> w.per_page == 1,
        params.per_page > 100 ==> w.per_page == 100,
        params.page >= 1 ==> w.page == params.page,
        params.page < 1 ==> w.page == 1,
        w.offset == (w.page - 1) * w.per_page,
{
}

} // verus!
