//! Fresh identifiers.
use vstd::prelude::*;

verus! {

/// A random (version 4) UUID in its hyphenated form (`uuid::Uuid::new_v4`
/// and its `Display`). The value is random; the form is the documented
/// 36-character hyphenated one.
#[verifier::external_body]
pub(crate) fn new_uuid_v4() -> (r: String)
    ensures
        r@.len() == 36,
{
    uuid::Uuid::new_v4().to_string()
}

/// A time-ordered (version 7) UUID for the instant `secs` seconds and
/// `nanos` nanoseconds after the Unix epoch, in its hyphenated form
/// (`uuid::Uuid::new_v7` of `uuid::Timestamp::from_unix` without a
/// counter, and its `Display`). Its low bits are random; the form is the
/// documented 36-character hyphenated one.
#[verifier::external_body]
pub(crate) fn uuid_v7_at(secs: u64, nanos: u32) -> (r: String)
    ensures
        r@.len() == 36,
{
    uuid::Uuid::new_v7(uuid::Timestamp::from_unix(uuid::NoContext, secs, nanos)).to_string()
}

/// A time-ordered (version 7) UUID for the system clock's current reading
/// (the epoch where the clock reads before it).
pub(crate) fn new_uuid_v7() -> (r: String)
    ensures
        r@.len() == 36,
{
    let (secs, nanos) = crate::clock::system_now_parts();
    uuid_v7_at(secs, nanos)
}

} // verus!
