//! Conversion between Unix time and the store's internal timestamp unit.
//!
//! The store counts nanoseconds since its reference date,
//! 2001-01-01T00:00:00Z. Unix time is held here as a whole number of
//! nanoseconds since 1970-01-01T00:00:00Z, so both directions are exact.
use vstd::prelude::*;

verus! {

/// Seconds between the Unix epoch and the store's reference date.
pub const REFERENCE_OFFSET_SECS: i64 = 978307200;

/// Nanoseconds in one second.
pub const NANOS_PER_SEC: i64 = 1000000000;

/// Nanoseconds between the Unix epoch and the store's reference date.
pub const REFERENCE_OFFSET_NANOS: i128 = 978307200000000000;

/// The internal value that denotes a Unix time given in nanoseconds.
pub open spec fn internal_of(unix_nanos: int) -> int {
    unix_nanos - REFERENCE_OFFSET_NANOS
}

/// The Unix time, in nanoseconds, that an internal value denotes.
pub open spec fn unix_of(internal: int) -> int {
    internal + REFERENCE_OFFSET_NANOS
}

/// Whether a Unix time has an internal value that fits the store's 64-bit column.
pub open spec fn representable(unix_nanos: int) -> bool {
    i64::MIN <= internal_of(unix_nanos) <= i64::MAX
}

/// What a raw timestamp column means once the zero sentinel is honoured:
/// zero means the event did not happen.
pub open spec fn optional_unix_of(internal: int) -> Option<int> {
    if internal == 0 {
        None
    } else {
        Some(unix_of(internal))
    }
}

/// The value of an optional timestamp.
pub open spec fn opt_time_view(t: Option<i128>) -> Option<int> {
    match t {
        Some(v) => Some(v as int),
        None => None,
    }
}

/// Unix time in nanoseconds for a whole number of Unix seconds.
pub fn unix_nanos_from_secs(secs: i64) -> (r: i128)
    ensures
        r == secs * NANOS_PER_SEC,
{
    proof {
        let s = secs as int;
        assert(-0x8000_0000_0000_0000 * 1000000000 <= s * 1000000000 <= 0x7fff_ffff_ffff_ffff
            * 1000000000) by (nonlinear_arith)
            requires
                -0x8000_0000_0000_0000 <= s <= 0x7fff_ffff_ffff_ffff,
        ;
    }
    (secs as i128) * (NANOS_PER_SEC as i128)
}

/// The internal value of a Unix time, or `None` when it lies outside the
/// range of the store's 64-bit column.
pub fn to_internal(unix_nanos: i128) -> (r: Option<i64>)
    ensures
        r is Some <==> representable(unix_nanos as int),
        r is Some ==> r->0 == internal_of(unix_nanos as int),
{
    if unix_nanos < i64::MIN as i128 + REFERENCE_OFFSET_NANOS
        || unix_nanos > i64::MAX as i128 + REFERENCE_OFFSET_NANOS {
        None
    } else {
        Some((unix_nanos - REFERENCE_OFFSET_NANOS) as i64)
    }
}

/// The Unix time, in nanoseconds, of an internal value.
pub fn from_internal(internal: i64) -> (r: i128)
    ensures
        r == unix_of(internal as int),
{
    internal as i128 + REFERENCE_OFFSET_NANOS
}

/// The Unix time of a raw timestamp column whose zero value means "never".
pub fn optional_from_internal(internal: i64) -> (r: Option<i128>)
    ensures
        opt_time_view(r) == optional_unix_of(internal as int),
{
    if internal == 0 {
        None
    } else {
        Some(from_internal(internal))
    }
}

/// Converting a representable Unix time to the internal unit and back gives
/// the same time, to the nanosecond.
pub proof fn lemma_unix_round_trip(unix_nanos: int)
    requires
        representable(unix_nanos),
    ensures
        unix_of(internal_of(unix_nanos)) == unix_nanos,
        i64::MIN <= internal_of(unix_nanos) <= i64::MAX,
{
}

/// Converting an internal value to Unix time and back gives the same value.
pub proof fn lemma_internal_round_trip(internal: int)
    requires
        i64::MIN <= internal <= i64::MAX,
    ensures
        representable(unix_of(internal)),
        internal_of(unix_of(internal)) == internal,
{
}

/// A zero raw timestamp never stands for a time: in particular it never
/// stands for the reference date itself.
pub proof fn lemma_zero_is_absent()
    ensures
        optional_unix_of(0) is None,
        forall|internal: int| #[trigger] optional_unix_of(internal) is Some ==> internal != 0,
{
}

} // verus!
