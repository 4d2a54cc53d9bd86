//! Timestamps and fresh identifiers, the two values a create or an update
//! takes from the world outside the library.
use vstd::prelude::*;

verus! {

/// A point in time with the offset from UTC that it was recorded in.
#[derive(Clone, Copy, Debug, PartialEq, Eq, Structural)]
pub struct Timestamp {
    /// Whole seconds since 1970-01-01T00:00:00Z.
    pub seconds: i64,
    /// Nanoseconds past `seconds`.
    pub nanos: u32,
    /// Offset of the local time from UTC, in seconds east.
    pub offset_seconds: i32,
}

/// The version field of a 128-bit identifier (its bits 76 to 79).
pub open spec fn uuid_version(v: u128) -> u128 {
    (v >> 76u128) & 0xfu128
}

/// The variant field of a 128-bit identifier (its bits 62 and 63).
pub open spec fn uuid_variant(v: u128) -> u128 {
    (v >> 62u128) & 0x3u128
}

/// Relies on chrono::Utc::now and DateTime::fixed_offset: the current time,
/// recorded at a zero offset from UTC.
#[verifier::external_body]
pub(crate) fn current_time() -> (r: Timestamp)
    ensures
        r.offset_seconds == 0,
{
    let t = chrono::Utc::now().fixed_offset();
    Timestamp {
        seconds: t.timestamp(),
        nanos: t.timestamp_subsec_nanos(),
        offset_seconds: t.offset().local_minus_utc(),
    }
}

/// Relies on uuid::Uuid::new_v4 and Uuid::as_u128: a random identifier whose
/// version field is 4 and whose variant field is the RFC 9562 one.
#[verifier::external_body]
pub(crate) fn fresh_id() -> (r: u128)
    ensures
        uuid_version(r) == 4,
        uuid_variant(r) == 2,
{
    uuid::Uuid::new_v4().as_u128()
}

} // verus!
