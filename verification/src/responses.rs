use vstd::prelude::*;
use vstd::string::*;

use crate::text::string_views;
use crate::tokens::Claims;

verus! {

/// What an authenticated user's dashboard shows.
#[derive(Debug, Clone, PartialEq, Eq)]
pub struct DashboardResponse {
    pub user_id: String,
    pub role: String,
    pub message: String,
}

/// The greeting shown to a user with a role.
pub open spec fn welcome_message(role: Seq<char>) -> Seq<char> {
    "Welcome, "@ + role + "! You are logged in."@
}

impl DashboardResponse {
    /// The dashboard of the holder of these claims: their id, their role, and
    /// a greeting naming the role.
    pub fn for_claims(claims: &Claims) -> (r: DashboardResponse)
        ensures
            r.user_id@ == claims.sub@,
            r.role@ == claims.role@,
            r.message@ == welcome_message(claims.role@),
    {
        let mut message = String::from_str("Welcome, ");
        message.append(claims.role.as_str());
        message.append("! You are logged in.");
        DashboardResponse { user_id: claims.sub.clone(), role: claims.role.clone(), message }
    }
}

/// Health of the service: always `ok`, the database state, and the version.
#[derive(Debug, Clone, PartialEq, Eq)]
pub struct HealthResponse {
    pub status: String,
    pub database: String,
    pub version: String,
}

impl HealthResponse {
    /// The health report for the outcome of a trivial database query: `up`
    /// when it succeeded, `down: ` and the error otherwise.
    pub fn from_probe(probe: Result<(), String>, version: &str) -> (r: HealthResponse)
        ensures
            r.status@ == "ok"@,
            probe is Ok ==> r.database@ == "up"@,
            probe matches Err(e) ==> r.database@ == "down: "@ + e@,
            r.version@ == version@,
    {
        let database = match probe {
            Ok(()) => String::from_str("up"),
            Err(e) => {
                let mut d = String::from_str("down: ");
                d.append(e.as_str());
                d
            },
        };
        HealthResponse { status: String::from_str("ok"), database, version: version.to_owned() }
    }
}

impl HealthResponse {
    /// The HTTP status of a health report: 200 while the database is up, 500
    /// (unhealthy) otherwise.
    pub fn status_code(&self) -> (code: u16)
        ensures
            self.database@ == "up"@ ==> code == 200,
            self.database@ != "up"@ ==> code == 500,
    {
        if self.database == String::from_str("up") {
            200
        } else {
            500
        }
    }
}

/// A character that may stand in an HTTP header value: every UTF-8 byte of it
/// must be a tab or at least 32 and not 127, which for a character means it
/// is a tab, or is neither an ASCII control character nor DEL.
pub open spec fn header_value_char(c: char) -> bool {
    c == '\t' || (c as u32 >= 32 && c as u32 != 127)
}

/// Whether a text is a valid HTTP header value (`HeaderValue::from_str`).
pub open spec fn is_header_value(s: Seq<char>) -> bool {
    forall|i: int| 0 <= i < s.len() ==> #[trigger] header_value_char(s[i])
}

/// Whether a text is a valid HTTP header value.
pub fn header_value_ok(s: &str) -> (b: bool)
    ensures
        b == is_header_value(s@),
{
    let n = s.unicode_len();
    let mut i: usize = 0;
    while i < n
        invariant
            n == s@.len(),
            i <= n,
            forall|j: int| 0 <= j < i ==> #[trigger] header_value_char(s@[j]),
        decreases n - i,
    {
        let c = s.get_char(i);
        let code = c as u32;
        if !(c == '\t' || (code >= 32 && code != 127)) {
            assert(!header_value_char(s@[i as int]));
            return false;
        }
        i = i + 1;
    }
    true
}

/// The configured origins that can be sent as CORS header values, in order.
pub fn usable_origins(origins: &Vec<String>) -> (r: Vec<String>)
    ensures
        string_views(r@) == string_views(origins@).filter(|o: Seq<char>| is_header_value(o)),
{
    let ghost pred = |o: Seq<char>| is_header_value(o);
    let mut r: Vec<String> = Vec::new();
    let mut i: usize = 0;
    while i < origins.len()
        invariant
            i <= origins@.len(),
            pred == (|o: Seq<char>| is_header_value(o)),
            string_views(r@) == string_views(origins@).take(i as int).filter(pred),
        decreases origins@.len() - i,
    {
        proof {
            reveal_with_fuel(Seq::<_>::filter, 1);
            assert(string_views(origins@).take(i + 1).drop_last() =~= string_views(origins@).take(
                i as int,
            ));
        }
        if header_value_ok(origins[i].as_str()) {
            r.push(origins[i].clone());
            assert(string_views(r@) =~= string_views(origins@).take(i as int).filter(pred).push(
                origins@[i as int]@,
            ));
        } else {
            assert(string_views(r@) =~= string_views(origins@).take(i + 1).filter(pred));
        }
        i = i + 1;
    }
    assert(string_views(origins@).take(origins@.len() as int) =~= string_views(origins@));
    r
}

} // verus!
