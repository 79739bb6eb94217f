//! Readings of the system clock, and the RFC 3339 text of a reading. What
//! a reading returns depends on the time at which it is taken, so nothing
//! is claimed of it beyond its range.
use vstd::prelude::*;

verus! {

/// Seconds and the nanoseconds past them since the Unix epoch from
/// `std::time::SystemTime::now()`, both zero where the clock reads before
/// the epoch. The nanoseconds are below one second, as
/// `Duration::subsec_nanos` documents.
#[verifier::external_body]
pub(crate) fn system_now_parts() -> (r: (u64, u32))
    ensures
        r.1 < 1_000_000_000,
{
    let d = std::time::SystemTime::now().duration_since(std::time::UNIX_EPOCH).unwrap_or(std::time::Duration::ZERO);
    (d.as_secs(), d.subsec_nanos())
}

/// Seconds since the Unix epoch from `std::time::SystemTime::now()`, zero
/// where the clock reads before the epoch. No claim is made of the value.
#[verifier::external_body]
pub(crate) fn system_now_seconds() -> u64 {
    std::time::SystemTime::now()
        .duration_since(std::time::UNIX_EPOCH)
        .unwrap_or(std::time::Duration::ZERO)
        .as_secs()
}

/// Milliseconds since the Unix epoch from `std::time::SystemTime::now()`,
/// zero where the clock reads before the epoch. No claim is made of the
/// value.
#[verifier::external_body]
pub(crate) fn system_now_millis() -> u64 {
    std::time::SystemTime::now()
        .duration_since(std::time::UNIX_EPOCH)
        .unwrap_or(std::time::Duration::ZERO)
        .as_millis() as u64
}

/// Seconds since the Unix epoch as a signed number: the system clock's
/// reading (zero before the epoch), capped at `i64::MAX`.
pub(crate) fn utc_now_seconds() -> (r: i64)
    ensures
        r >= 0,
{
    let s = system_now_seconds();
    if s <= 9_223_372_036_854_775_807u64 {
        s as i64
    } else {
        9_223_372_036_854_775_807i64
    }
}

/// What `chrono::DateTime::<chrono::Utc>::from_timestamp(secs, nanos)`
/// followed by `to_rfc3339` gives: the RFC 3339 text of that instant, or
/// `None` where the instant is outside the range `chrono` represents.
pub uninterp spec fn rfc3339_text(secs: i64, nanos: u32) -> Option<Seq<char>>;

/// `chrono::DateTime::from_timestamp` and `to_rfc3339`: the RFC 3339 text
/// of the instant `secs` seconds and `nanos` nanoseconds after the Unix
/// epoch, `None` where `chrono` cannot represent it.
#[verifier::external_body]
pub(crate) fn rfc3339_of(secs: i64, nanos: u32) -> (r: Option<String>)
    ensures
        match r {
            Some(t) => rfc3339_text(secs, nanos) == Some(t@),
            None => rfc3339_text(secs, nanos) is None,
        },
{
    match chrono::DateTime::<chrono::Utc>::from_timestamp(secs, nanos) {
        Some(d) => Some(d.to_rfc3339()),
        None => None,
    }
}

/// The current UTC time in RFC 3339 form: the RFC 3339 text of the system
/// clock's reading (the epoch where the clock reads before it); empty only
/// where that reading is beyond what `chrono` represents.
pub(crate) fn utc_now_rfc3339() -> (r: String)
    ensures
        exists|secs: i64, nanos: u32|
            match #[trigger] rfc3339_text(secs, nanos) {
                Some(t) => r@ == t,
                None => r@.len() == 0,
            },
{
    let (s, n) = system_now_parts();
    let secs: i64 = if s <= 9_223_372_036_854_775_807u64 {
        s as i64
    } else {
        9_223_372_036_854_775_807i64
    };
    match rfc3339_of(secs, n) {
        Some(t) => t,
        None => String::new(),
    }
}

} // verus!
