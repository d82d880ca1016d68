use time::OffsetDateTime;
use vstd::prelude::*;

verus! {

#[verifier::external_type_specification]
#[verifier::external_body]
pub struct ExOffsetDateTime(time::OffsetDateTime);

/// Earliest whole Unix second an `OffsetDateTime` can hold
/// (-9999-01-01 00:00:00 UTC).
pub const MIN_UNIX_SECONDS: i64 = -377_705_116_800;

/// Latest whole Unix second an `OffsetDateTime` can hold
/// (9999-12-31 23:59:59 UTC).
pub const MAX_UNIX_SECONDS: i64 = 253_402_300_799;

/// A wall-clock moment on the wire: whole seconds since the Unix epoch and
/// the nanoseconds past them.
#[derive(Debug, Clone, Copy, PartialEq, Eq, Structural)]
pub struct WireTimestamp {
    pub seconds: i64,
    pub nanos: i32,
}

/// The timestamp lies outside what an `OffsetDateTime` can hold.
#[derive(Debug, Clone, Copy, PartialEq, Eq, Structural)]
pub struct TimestampOutOfRange {
    pub seconds: i64,
}

/// Whole seconds of a nanosecond count, rounding toward negative infinity.
pub open spec fn whole_seconds(nanos: int) -> int {
    nanos / 1_000_000_000
}

/// Nanoseconds past the whole seconds, always in `0..1_000_000_000`.
pub open spec fn sub_second_nanos(nanos: int) -> int {
    nanos % 1_000_000_000
}

/// The nanosecond count a wire timestamp stands for.
pub open spec fn wire_nanos(t: WireTimestamp) -> int {
    t.seconds * 1_000_000_000 + t.nanos
}

/// Whether an `OffsetDateTime` can hold the instant `nanos` after the epoch.
pub open spec fn representable(nanos: int) -> bool {
    MIN_UNIX_SECONDS <= whole_seconds(nanos) <= MAX_UNIX_SECONDS
}

/// The instant of a moment: nanoseconds since the Unix epoch, the moment's
/// UTC offset taken off, as `time::OffsetDateTime::unix_timestamp_nanos`
/// gives it.
pub uninterp spec fn unix_nanos_of(moment: OffsetDateTime) -> int;

/// Calls `time::OffsetDateTime::unix_timestamp_nanos`. Trusted: the result
/// is the moment's instant, computed as its whole Unix seconds (an `i64`)
/// times a billion plus its nanosecond (below a billion). A moment near the
/// ends of the year range with a non-zero offset may lie outside the range
/// `from_unix_timestamp_nanos` accepts, so no narrower range is promised.
#[verifier::external_body]
fn unix_timestamp_nanos(moment: &OffsetDateTime) -> (nanos: i128)
    ensures
        nanos == unix_nanos_of(*moment),
        i64::MIN <= whole_seconds(nanos as int) <= i64::MAX,
{
    moment.unix_timestamp_nanos()
}

/// The moment, in UTC, that lies `nanos` nanoseconds after the Unix epoch,
/// as `time::OffsetDateTime::from_unix_timestamp_nanos` makes it.
pub uninterp spec fn moment_at(nanos: int) -> OffsetDateTime;

/// Calls `time::OffsetDateTime::from_unix_timestamp_nanos`. Trusted: the
/// crate accepts exactly the instants whose whole seconds lie within the
/// years -9999 to 9999, and the moment it gives depends on the instant
/// alone (it is always in UTC).
#[verifier::external_body]
fn from_unix_timestamp_nanos(nanos: i128) -> (moment: Option<OffsetDateTime>)
    ensures
        moment is Some <==> representable(nanos as int),
        moment matches Some(m) ==> m == moment_at(nanos as int) && unix_nanos_of(m) == nanos,
{
    OffsetDateTime::from_unix_timestamp_nanos(nanos).ok()
}

/// Splits an instant into whole seconds and the nanoseconds past them;
/// seconds beyond `i64` are clamped to `i64::MAX`.
pub fn timestamp_from_unix_nanos(nanos: i128) -> (t: WireTimestamp)
    ensures
        t.seconds == if whole_seconds(nanos as int) > i64::MAX as int {
            i64::MAX as int
        } else if whole_seconds(nanos as int) < i64::MIN as int {
            i64::MAX as int
        } else {
            whole_seconds(nanos as int)
        },
        t.nanos == sub_second_nanos(nanos as int),
{
    let (seconds, rest): (i128, i128) = if nanos >= 0 {
        (nanos / 1_000_000_000, nanos % 1_000_000_000)
    } else {
        let magnitude: i128 = -(nanos + 1);
        let q: i128 = magnitude / 1_000_000_000;
        let r: i128 = magnitude % 1_000_000_000;
        assert(nanos == -(q + 1) * 1_000_000_000 + (999_999_999 - r)) by (nonlinear_arith)
            requires
                magnitude == -(nanos + 1),
                q == magnitude / 1_000_000_000,
                r == magnitude % 1_000_000_000,
                magnitude >= 0,
        ;
        assert(whole_seconds(nanos as int) == -(q + 1) && sub_second_nanos(nanos as int) == 999_999_999 - r) by (nonlinear_arith)
            requires
                nanos == -(q + 1) * 1_000_000_000 + (999_999_999 - r),
                0 <= r < 1_000_000_000,
        ;
        (-(q + 1), 999_999_999 - r)
    };
    let seconds: i64 = if seconds > i64::MAX as i128 || seconds < i64::MIN as i128 {
        i64::MAX
    } else {
        seconds as i64
    };
    WireTimestamp { seconds, nanos: rest as i32 }
}

/// The wire form of a moment: the whole seconds and the nanoseconds past
/// them of its instant.
pub fn offset_to_timestamp(moment: &OffsetDateTime) -> (t: WireTimestamp)
    ensures
        t.seconds == whole_seconds(unix_nanos_of(*moment)),
        t.nanos == sub_second_nanos(unix_nanos_of(*moment)),
{
    let nanos = unix_timestamp_nanos(moment);
    timestamp_from_unix_nanos(nanos)
}

/// The instant a wire timestamp stands for, in nanoseconds.
pub fn timestamp_unix_nanos(t: WireTimestamp) -> (nanos: i128)
    ensures
        nanos == wire_nanos(t),
{
    (t.seconds as i128) * 1_000_000_000 + (t.nanos as i128)
}

/// Reads a wire timestamp as a moment; refused when the instant lies
/// outside what `OffsetDateTime` can hold.
pub fn timestamp_to_offset(t: WireTimestamp) -> (r: Result<OffsetDateTime, TimestampOutOfRange>)
    ensures
        r is Ok <==> representable(wire_nanos(t)),
        r matches Ok(m) ==> m == moment_at(wire_nanos(t)),
        r matches Err(e) ==> e.seconds == t.seconds,
{
    let nanos = timestamp_unix_nanos(t);
    match from_unix_timestamp_nanos(nanos) {
        Some(moment) => Ok(moment),
        None => Err(TimestampOutOfRange { seconds: t.seconds }),
    }
}

/// When a trigger event was emitted: the moment it states, or `fallback_now`
/// when it states none. A stated moment outside what `OffsetDateTime` can
/// hold reads as the Unix epoch.
pub fn emitted_at_or(emitted: Option<WireTimestamp>, fallback_now: OffsetDateTime) -> (m: OffsetDateTime)
    ensures
        m == match emitted {
            None => fallback_now,
            Some(t) => if representable(wire_nanos(t)) { moment_at(wire_nanos(t)) } else { moment_at(0) },
        },
{
    match emitted {
        None => fallback_now,
        Some(t) => match from_unix_timestamp_nanos(timestamp_unix_nanos(t)) {
            Some(moment) => moment,
            None => {
                assert(representable(0)) by (nonlinear_arith);
                from_unix_timestamp_nanos(0).unwrap()
            },
        },
    }
}

/// Splitting an instant and joining the parts gives the instant back, for
/// every instant an `OffsetDateTime` can hold.
pub proof fn law_timestamp_round_trip(nanos: int)
    requires
        representable(nanos),
    ensures
        wire_nanos(WireTimestamp {
            seconds: whole_seconds(nanos) as i64,
            nanos: sub_second_nanos(nanos) as i32,
        }) == nanos,
        0 <= sub_second_nanos(nanos) < 1_000_000_000,
{
    assert(nanos == whole_seconds(nanos) * 1_000_000_000 + sub_second_nanos(nanos)) by (nonlinear_arith);
}

/// A wire timestamp with nanoseconds in range reads as the instant it
/// splits back into.
pub proof fn law_wire_timestamp_is_canonical(t: WireTimestamp)
    requires
        0 <= t.nanos < 1_000_000_000,
    ensures
        whole_seconds(wire_nanos(t)) == t.seconds,
        sub_second_nanos(wire_nanos(t)) == t.nanos,
{
    assert(whole_seconds(wire_nanos(t)) == t.seconds && sub_second_nanos(wire_nanos(t)) == t.nanos) by (nonlinear_arith)
        requires
            0 <= t.nanos < 1_000_000_000,
    ;
}

} // verus!
