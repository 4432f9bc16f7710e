use vstd::prelude::*;

use crate::pagination::PageWindow;

verus! {

/// An account as stored: its id, email, role and creation time in
/// microseconds since the Unix epoch.
#[derive(Debug, Clone, PartialEq, Eq)]
pub struct UserRecord {
    pub id: u128,
    pub email: String,
    pub role: String,
    pub created_at_micros: i64,
}

/// An account as listed to an administrator; `created_at` is an RFC 3339 time.
#[derive(Debug, Clone, PartialEq, Eq)]
pub struct UserListItem {
    pub id: u128,
    pub email: String,
    pub role: String,
    pub created_at: String,
}

/// One page of the account list, with the total number of accounts.
#[derive(Debug, Clone, PartialEq, Eq)]
pub struct UsersResponse {
    pub users: Vec<UserListItem>,
    pub page: i64,
    pub per_page: i64,
    pub total: i64,
}

/// The RFC 3339 text (`chrono`'s `to_rfc3339`) of the UTC instant that lies
/// the given number of microseconds after the Unix epoch, or `None` where no
/// such instant is representable.
pub uninterp spec fn rfc3339_of_micros(micros: i64) -> Option<Seq<char>>;

/// Formats an instant with `chrono::DateTime::<Utc>::from_timestamp_micros`
/// and `DateTime::to_rfc3339`. Trusted: the result is the named one,
/// `rfc3339_of_micros`, which depends on the argument alone.
#[verifier::external_body]
fn format_rfc3339_micros(micros: i64) -> (r: Option<String>)
    ensures
        r is None <==> rfc3339_of_micros(micros) is None,
        r matches Some(s) ==> rfc3339_of_micros(micros) == Some(s@),
{
    chrono::DateTime::<chrono::Utc>::from_timestamp_micros(micros).map(|d| d.to_rfc3339())
}

/// Whether a listed item shows a stored account.
pub open spec fn lists(item: UserListItem, rec: UserRecord) -> bool {
    &&& item.id == rec.id
    &&& item.email@ == rec.email@
    &&& item.role@ == rec.role@
    &&& rfc3339_of_micros(rec.created_at_micros) == Some(item.created_at@)
}

/// Whether every stored account has a representable creation time.
pub open spec fn all_times_representable(rows: Seq<UserRecord>) -> bool {
    forall|i: int| 0 <= i < rows.len() ==> #[trigger] rfc3339_of_micros(rows[i].created_at_micros) is Some
}

/// The listing of one stored account, or `None` where its creation time has
/// no RFC 3339 form.
pub fn user_list_item(rec: &UserRecord) -> (r: Option<UserListItem>)
    ensures
        r is None <==> rfc3339_of_micros(rec.created_at_micros) is None,
        r matches Some(item) ==> lists(item, *rec),
{
    match format_rfc3339_micros(rec.created_at_micros) {
        Some(created_at) => Some(
            UserListItem {
                id: rec.id,
                email: rec.email.clone(),
                role: rec.role.clone(),
                created_at,
            },
        ),
        None => None,
    }
}

/// The answer to an administrator's listing request: the page served, the
/// total count, and the rows of that page in the order given. `None` where a
/// row's creation time has no RFC 3339 form.
pub fn users_response(window: &PageWindow, total: i64, rows: &Vec<UserRecord>) -> (r: Option<
    UsersResponse,
>)
    ensures
        r is None <==> !all_times_representable(rows@),
        r matches Some(resp) ==> {
            &&& resp.page == window.page
            &&& resp.per_page == window.per_page
            &&& resp.total == total
            &&& resp.users@.len() == rows@.len()
            &&& forall|i: int| 0 <= i < rows@.len() ==> lists(#[trigger] resp.users@[i], rows@[i])
        },
{
    let mut users: Vec<UserListItem> = Vec::new();
    let mut i: usize = 0;
    while i < rows.len()
        invariant
            i <= rows@.len(),
            users@.len() == i,
            forall|j: int| 0 <= j < i ==> lists(#[trigger] users@[j], rows@[j]),
            forall|j: int| 0 <= j < i ==> #[trigger] rfc3339_of_micros(rows@[j].created_at_micros) is Some,
        decreases rows@.len() - i,
    {
        match user_list_item(&rows[i]) {
            Some(item) => {
                users.push(item);
            },
            None => {
                return None;
            },
        }
        i = i + 1;
    }
    Some(UsersResponse { users, page: window.page, per_page: window.per_page, total })
}

} // verus!
