//! The epoch converter: maps between Unix time in milliseconds and protocol
//! time, the count of whole seconds since the protocol epoch
//! (2021-01-01T00:00:00 UTC), and produces "now" in protocol time.
//!
//! An instant is representable when the calendar implementation can hold it:
//! chrono's `DateTime` covers the years -262143 through 262142, and the
//! constants below are the Unix-second readings of that window's two ends.
//! Conversions succeed exactly on the window and fail outside it.

use vstd::prelude::*;

verus! {

/// The protocol epoch, as seconds since the Unix epoch.
pub const FARCASTER_EPOCH_SECONDS: i64 = 1609459200;

/// The first representable instant (-262143-01-01T00:00:00 UTC), as seconds
/// since the Unix epoch.
pub const MIN_UNIX_SECONDS: i64 = -8334601228800;

/// The last representable instant (262142-12-31T23:59:59 UTC), as seconds
/// since the Unix epoch.
pub const MAX_UNIX_SECONDS: i64 = 8210266876799;

/// The first representable instant in milliseconds.
pub const MIN_UNIX_MILLIS: i64 = MIN_UNIX_SECONDS * 1000;

/// The last representable instant in milliseconds (the last whole second's
/// final millisecond).
pub const MAX_UNIX_MILLIS: i64 = MAX_UNIX_SECONDS * 1000 + 999;

/// What `to_farcaster_time` returns: for a representable instant, the whole
/// seconds between the protocol epoch and that instant, the sub-second part
/// discarded (rounding toward the earlier second); `None` for a millisecond
/// count outside the representable window.
pub open spec fn spec_to_farcaster_time(ms: i64) -> Option<i64> {
    if MIN_UNIX_MILLIS <= ms <= MAX_UNIX_MILLIS {
        Option::Some((ms / 1000 - FARCASTER_EPOCH_SECONDS) as i64)
    } else {
        Option::None
    }
}

/// What `from_farcaster_time` returns: the protocol timestamp moved back to
/// Unix milliseconds, for a timestamp naming a representable instant; `None`
/// outside the same calendar window that `to_farcaster_time` accepts.
pub open spec fn spec_from_farcaster_time(t: i64) -> Option<i64> {
    if MIN_UNIX_SECONDS <= t + FARCASTER_EPOCH_SECONDS <= MAX_UNIX_SECONDS {
        Option::Some(((t + FARCASTER_EPOCH_SECONDS) * 1000) as i64)
    } else {
        Option::None
    }
}

/// Flooring division by 1000 of a negative count, written over its negation.
proof fn lemma_neg_floor_div(t: int)
    requires
        t < 0,
    ensures
        t / 1000 == -(((-t) + 999) / 1000),
{
    let q = t / 1000;
    let r = t % 1000;
    vstd::arithmetic::div_mod::lemma_fundamental_div_mod(t, 1000);
    vstd::arithmetic::div_mod::lemma_mod_bound(t, 1000);
    if r == 0 {
        vstd::arithmetic::div_mod::lemma_fundamental_div_mod_converse((-t) + 999, 1000, -q, 999);
    } else {
        vstd::arithmetic::div_mod::lemma_fundamental_div_mod_converse(
            (-t) + 999,
            1000,
            -q,
            999 - r,
        );
    }
}

/// Converts a Unix timestamp in milliseconds to a protocol timestamp in
/// seconds. Sub-second precision is discarded; a count outside the
/// representable calendar window is rejected.
pub fn to_farcaster_time(time: i64) -> (r: Option<i64>)
    ensures
        r == spec_to_farcaster_time(time),
{
    if time < MIN_UNIX_MILLIS || time > MAX_UNIX_MILLIS {
        return None;
    }
    let secs: i64 = if time >= 0 {
        ((time as u64) / 1000) as i64
    } else {
        let m: u64 = ((-(time + 1)) as u64) + 1;
        let q: u64 = (m + 999) / 1000;
        proof {
            lemma_neg_floor_div(time as int);
        }
        -(q as i64)
    };
    proof {
        vstd::arithmetic::div_mod::lemma_div_is_ordered(MIN_UNIX_MILLIS as int, time as int, 1000);
        vstd::arithmetic::div_mod::lemma_div_is_ordered(time as int, MAX_UNIX_MILLIS as int, 1000);
    }
    Some(secs - FARCASTER_EPOCH_SECONDS)
}

/// Converts a protocol timestamp in seconds to a Unix timestamp in
/// milliseconds. A timestamp naming an instant outside the representable
/// calendar window is rejected, mirroring `to_farcaster_time`.
pub fn from_farcaster_time(time: i64) -> (r: Option<i64>)
    ensures
        r == spec_from_farcaster_time(time),
{
    match time.checked_add(FARCASTER_EPOCH_SECONDS) {
        Some(secs) => {
            if secs < MIN_UNIX_SECONDS || secs > MAX_UNIX_SECONDS {
                None
            } else {
                Some(secs * 1000)
            }
        },
        None => None,
    }
}

/// Relies on `chrono::Utc::now` and `chrono::DateTime::timestamp` for the
/// current wall-clock instant as whole seconds since the Unix epoch. `now`
/// refuses a system clock reading before 1970 and builds a `DateTime<Utc>`,
/// which always lies in the calendar window, so every value it returns is
/// non-negative and within the window; the instant itself moves with the
/// clock, so no more is promised. Inherited from chrono: `now` aborts, rather
/// than returning, when the clock reads before 1970 or past the window's end.
#[verifier::external_body]
fn now_unix_seconds() -> (r: i64)
    ensures
        0 <= r <= MAX_UNIX_SECONDS,
{
    chrono::Utc::now().timestamp()
}

/// Returns "now" in protocol time: the seconds elapsed from the protocol
/// epoch to the current wall-clock instant. The clock reading is always a
/// representable instant at or after 1970, so the offset always exists; which
/// offset comes back moves with the clock.
pub fn get_farcaster_time() -> (r: Option<i64>)
    ensures
        r is Some,
        -FARCASTER_EPOCH_SECONDS <= r->0 <= MAX_UNIX_SECONDS - FARCASTER_EPOCH_SECONDS,
{
    let now = now_unix_seconds();
    Some(now - FARCASTER_EPOCH_SECONDS)
}

/// Converting a representable instant to protocol time and back reproduces it
/// rounded down to the whole second: only the sub-second part is lost.
pub proof fn lemma_farcaster_time_round_trip(ms: i64)
    requires
        MIN_UNIX_MILLIS <= ms <= MAX_UNIX_MILLIS,
    ensures
        spec_to_farcaster_time(ms) is Some,
        spec_from_farcaster_time(spec_to_farcaster_time(ms)->0) == Option::Some(
            (ms - ms % 1000) as i64,
        ),
{
    let t = spec_to_farcaster_time(ms)->0;
    assert(t == ms / 1000 - FARCASTER_EPOCH_SECONDS);
    vstd::arithmetic::div_mod::lemma_fundamental_div_mod(ms as int, 1000);
    vstd::arithmetic::div_mod::lemma_mod_bound(ms as int, 1000);
    assert((t + FARCASTER_EPOCH_SECONDS) * 1000 == (ms / 1000) * 1000);
    assert(ms / 1000 * 1000 == ms - ms % 1000);
    vstd::arithmetic::div_mod::lemma_div_is_ordered(MIN_UNIX_MILLIS as int, ms as int, 1000);
    vstd::arithmetic::div_mod::lemma_div_is_ordered(ms as int, MAX_UNIX_MILLIS as int, 1000);
    assert(MIN_UNIX_SECONDS <= t + FARCASTER_EPOCH_SECONDS <= MAX_UNIX_SECONDS);
}

/// Converting a protocol timestamp that names a representable instant to Unix
/// milliseconds and back recovers it exactly: the milliseconds carry no
/// sub-second part to lose.
pub proof fn lemma_protocol_time_round_trip(t: i64)
    requires
        spec_from_farcaster_time(t) is Some,
    ensures
        spec_to_farcaster_time(spec_from_farcaster_time(t)->0) == Option::Some(t),
{
    let secs = t + FARCASTER_EPOCH_SECONDS;
    let ms = spec_from_farcaster_time(t)->0;
    assert(ms == secs * 1000);
    assert(MIN_UNIX_MILLIS <= ms <= MAX_UNIX_MILLIS) by (nonlinear_arith)
        requires
            ms == secs * 1000,
            MIN_UNIX_SECONDS <= secs <= MAX_UNIX_SECONDS,
            MIN_UNIX_MILLIS == MIN_UNIX_SECONDS * 1000,
            MAX_UNIX_MILLIS == MAX_UNIX_SECONDS * 1000 + 999,
    ;
    vstd::arithmetic::div_mod::lemma_fundamental_div_mod_converse(ms as int, 1000, secs as int, 0);
}

} // verus!
