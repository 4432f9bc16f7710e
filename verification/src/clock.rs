use vstd::prelude::*;

use crate::tokens::REFRESH_TOKEN_SECS;

verus! {

/// Microseconds a refresh token stays valid (seven days).
pub const REFRESH_TOKEN_MICROS: i64 = REFRESH_TOKEN_SECS * 1_000_000;

/// Whether a clock reading (microseconds since the Unix epoch) lies where the
/// token times can be computed: not before the epoch, far enough from the
/// end of the `i64` range that a refresh expiry can be added, and with its
/// seconds plus an access token's lifetime fitting a `usize`.
pub open spec fn clock_ok(now_micros: i64) -> bool {
    &&& 0 <= now_micros <= i64::MAX - REFRESH_TOKEN_MICROS
    &&& now_micros / 1_000_000 + 900 <= usize::MAX
}

/// The system clock in microseconds since the Unix epoch, from
/// `std::time::SystemTime::now().duration_since(UNIX_EPOCH)`; `None` where the
/// clock stands before the epoch or the count does not fit an `i64`. Nothing
/// is claimed of the value.
#[verifier::external_body]
fn system_clock_micros() -> (r: Option<i64>) {
    let since = std::time::SystemTime::now().duration_since(std::time::UNIX_EPOCH).ok()?;
    i64::try_from(since.as_micros()).ok()
}

/// The leeway, in microseconds, that `jsonwebtoken`'s default validation
/// subtracts from the current time when it checks a token's expiry.
pub const JWT_LEEWAY_MICROS: i64 = 60_000_000;

/// Whether a time was read from the system clock: `system_clock_micros` can
/// give it, so it is a reading, not a time made up or shifted from one.
pub closed spec fn is_clock_reading(t: i64) -> bool {
    call_ensures(system_clock_micros, (), Some(t))
}

/// Whether the system clock has given no reading, or a reading outside the
/// range where token times can be computed.
pub closed spec fn clock_gave_none() -> bool {
    ||| call_ensures(system_clock_micros, (), None::<i64>)
    ||| exists|t: i64| #[trigger] call_ensures(system_clock_micros, (), Some(t)) && !clock_ok(t)
}

/// Whether the system clock has given no reading, or one less than the
/// validation leeway past the Unix epoch.
pub closed spec fn clock_before_leeway() -> bool {
    ||| call_ensures(system_clock_micros, (), None::<i64>)
    ||| exists|t: i64|
        #[trigger] call_ensures(system_clock_micros, (), Some(t)) && t < JWT_LEEWAY_MICROS
}

/// Whether the system clock stands at least the validation leeway past the
/// Unix epoch, so that `jsonwebtoken` can check a token's expiry against it
/// (it fails on a clock before the epoch, and subtracts the leeway from the
/// current second). The answer depends on the clock alone; `false` comes only
/// from a reading before the leeway, or none.
pub fn clock_past_leeway() -> (b: bool)
    ensures
        !b ==> clock_before_leeway(),
{
    let read = system_clock_micros;
    match read() {
        Some(t) => t >= JWT_LEEWAY_MICROS,
        None => false,
    }
}

/// Whether a clock reading can be used for issuing tokens.
pub fn clock_usable(now_micros: i64) -> (b: bool)
    ensures
        b == clock_ok(now_micros),
{
    0 <= now_micros && now_micros <= i64::MAX - REFRESH_TOKEN_MICROS && ((now_micros / 1_000_000)
        as u128) + 900 <= usize::MAX as u128
}

/// A clock reading, where it is usable for issuing tokens; `None` otherwise.
pub fn usable_clock_reading(now_micros: i64) -> (r: Option<i64>)
    ensures
        clock_ok(now_micros) ==> r == Some(now_micros),
        !clock_ok(now_micros) ==> r is None,
{
    if clock_usable(now_micros) {
        Some(now_micros)
    } else {
        None
    }
}

/// The current time by the system clock, where it is usable for issuing
/// tokens (see `clock_ok`); `None` where the clock stands before the epoch or
/// is otherwise unusable. A time that is returned is the reading itself.
pub fn clock_now() -> (r: Option<i64>)
    ensures
        r matches Some(t) ==> clock_ok(t),
        r matches Some(t) ==> is_clock_reading(t),
        r is None ==> clock_gave_none(),
{
    let read = system_clock_micros;
    match read() {
        Some(t) => usable_clock_reading(t),
        None => None,
    }
}

} // verus!
