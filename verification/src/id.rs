//! The identifier type and its construction from clock and uptime readings.

use vstd::prelude::*;

verus! {

/// The two conditions under which no identifier can be produced.
///
/// Both stem from the environment, not from any argument: the wall clock may
/// report a time earlier than the Unix epoch, and the OS uptime query may fail.
#[derive(Debug, Clone, Copy, PartialEq, Eq, Structural)]
pub enum IdError {
    /// The wall clock reported a time earlier than the Unix epoch.
    ClockBeforeEpoch,
    /// The OS uptime query failed.
    UptimeUnavailable,
}

/// A process-local, time-derived identifier.
///
/// The wrapped value holds an OS uptime reading (milliseconds) in its high
/// 64 bits, with a wall-clock nanosecond timestamp added to the shifted
/// uptime. The combination is arithmetic addition, not a bitwise OR, so a
/// timestamp of 2^64 or more would carry into the high bits.
#[derive(Debug, Clone, Copy, PartialEq, Eq, Hash, Structural)]
pub struct Id(u128);

impl View for Id {
    type V = u128;

    closed spec fn view(&self) -> u128 {
        self.0
    }
}

/// The mathematical (unbounded) combination of the two readings: the uptime
/// shifted into the high 64 bits, plus the nanosecond timestamp.
pub open spec fn combined(uptime_ms: u64, clock_nanos: u128) -> int {
    uptime_ms * 0x10000000000000000 + clock_nanos
}

/// The identifier value built from the two readings: the combination reduced
/// to 128 bits, as 128-bit addition of the shifted uptime and the timestamp
/// produces it. The reduction never takes effect for timestamps below 2^64
/// (see [`lemma_no_carry_out`]).
pub open spec fn id_value(uptime_ms: u64, clock_nanos: u128) -> u128 {
    if combined(uptime_ms, clock_nanos) <= u128::MAX {
        combined(uptime_ms, clock_nanos) as u128
    } else {
        (combined(uptime_ms, clock_nanos) - 0x100000000000000000000000000000000) as u128
    }
}

/// For any timestamp below 2^64 the combination fits in 128 bits, whatever
/// the uptime reading: the 128-bit addition loses nothing.
pub proof fn lemma_no_carry_out(uptime_ms: u64, clock_nanos: u128)
    requires
        clock_nanos < 0x10000000000000000,
    ensures
        combined(uptime_ms, clock_nanos) <= u128::MAX,
        id_value(uptime_ms, clock_nanos) == combined(uptime_ms, clock_nanos),
{
    assert(uptime_ms * 0x10000000000000000 <= 0xffffffffffffffff * 0x10000000000000000);
}

/// Declares std::time::SystemTime so a wall-clock reading can pass through
/// verified signatures; the value stays opaque.
#[verifier::external_type_specification]
#[verifier::external_body]
pub struct ExSystemTime(std::time::SystemTime);

/// Relies on std::time::SystemTime::now: reads the wall clock.
#[verifier::external_body]
fn clock_now() -> std::time::SystemTime {
    std::time::SystemTime::now()
}

/// Relies on std::time::SystemTime::duration_since: returns `Ok` exactly when
/// the time is not earlier than the anchor, here the Unix epoch.
#[verifier::external_body]
fn duration_since_unix_epoch(t: &std::time::SystemTime) -> Option<core::time::Duration> {
    match t.duration_since(std::time::UNIX_EPOCH) {
        Ok(d) => Some(d),
        Err(_) => None,
    }
}

/// Relies on core::time::Duration::as_nanos: the whole duration as a count of
/// nanoseconds.
#[verifier::external_body]
fn duration_as_nanos(d: &core::time::Duration) -> u128 {
    d.as_nanos()
}

/// Relies on system_uptime::get_os_uptime: the OS uptime in milliseconds, or
/// `Err` when the OS query fails.
#[verifier::external_body]
fn os_uptime_millis() -> Option<u64> {
    match system_uptime::get_os_uptime() {
        Ok(ms) => Some(ms),
        Err(_) => None,
    }
}

/// Law: under normal conditions — a wall clock strictly past the Unix epoch
/// (so a positive nanosecond timestamp, and one within 64 bits, which holds
/// until roughly the year 2554) — every constructed identifier's value is
/// strictly positive, whatever the uptime reading.
pub proof fn lemma_value_positive(uptime_ms: u64, clock_nanos: u128)
    requires
        0 < clock_nanos < 0x10000000000000000,
    ensures
        id_value(uptime_ms, clock_nanos) > 0,
{
    lemma_no_carry_out(uptime_ms, clock_nanos);
}

/// Law: two constructions whose nanosecond timestamps differ yield distinct
/// identifiers, whatever the two uptime readings were, as long as both
/// timestamps lie below 2^64. Back-to-back constructions therefore differ
/// whenever the nanosecond clock advanced between the two reads; only equal
/// timestamps can collide.
pub proof fn lemma_distinct_timestamps(u1: u64, n1: u128, u2: u64, n2: u128)
    requires
        n1 < 0x10000000000000000,
        n2 < 0x10000000000000000,
        n1 != n2,
    ensures
        id_value(u1, n1) != id_value(u2, n2),
{
    lemma_no_carry_out(u1, n1);
    lemma_no_carry_out(u2, n2);
}

impl Id {
    /// Returns the stored 128-bit value, unchanged, at any point in the
    /// identifier's lifetime.
    pub fn value(&self) -> (r: u128)
        ensures
            r == self@,
    {
        self.0
    }

    /// Builds the identifier from the two readings: the uptime shifted left
    /// by 64 bits, then 128-bit addition of the nanosecond timestamp.
    pub fn from_parts(uptime_ms: u64, clock_nanos: u128) -> (id: Id)
        ensures
            id@ == id_value(uptime_ms, clock_nanos),
    {
        let shifted: u128 = (uptime_ms as u128) << 64;
        proof {
            assert(shifted == uptime_ms * 0x10000000000000000) by (bit_vector)
                requires
                    shifted == (uptime_ms as u128) << 64,
            ;
        }
        Id(shifted.wrapping_add(clock_nanos))
    }

    /// Decides the outcome of a construction attempt from the raw outcomes of
    /// the two environment reads. A missing clock reading means the wall clock
    /// was earlier than the Unix epoch; a missing uptime reading means the OS
    /// query failed. With both readings at hand an identifier is always
    /// produced, and its value is exactly their combination.
    pub fn from_readings(clock_nanos: Option<u128>, uptime_ms: Option<u64>) -> (r: Result<
        Id,
        IdError,
    >)
        ensures
            clock_nanos is None ==> r == Err::<Id, IdError>(IdError::ClockBeforeEpoch),
            clock_nanos is Some && uptime_ms is None ==> r == Err::<Id, IdError>(
                IdError::UptimeUnavailable,
            ),
            (clock_nanos is Some && uptime_ms is Some) ==> (r is Ok && r->Ok_0@ == id_value(
                uptime_ms->Some_0,
                clock_nanos->Some_0,
            )),
    {
        match (clock_nanos, uptime_ms) {
            (None, _) => Err(IdError::ClockBeforeEpoch),
            (Some(_), None) => Err(IdError::UptimeUnavailable),
            (Some(n), Some(u)) => Ok(Id::from_parts(u, n)),
        }
    }
}

/// Constructs a new identifier from the environment: reads the wall clock and
/// the OS uptime, and combines the two readings through
/// [`Id::from_readings`], whose contract states the outcome for every pair of
/// readings. Both failure conditions are reported as errors rather than
/// aborting, so the caller decides whether a failed read is fatal.
pub fn new_identifier() -> (r: Result<Id, IdError>)
    ensures
        r is Err ==> (r == Err::<Id, IdError>(IdError::ClockBeforeEpoch) || r == Err::<
            Id,
            IdError,
        >(IdError::UptimeUnavailable)),
{
    let now = clock_now();
    let clock_nanos: Option<u128> = match duration_since_unix_epoch(&now) {
        Some(d) => Some(duration_as_nanos(&d)),
        None => None,
    };
    let uptime_ms = os_uptime_millis();
    Id::from_readings(clock_nanos, uptime_ms)
}

} // verus!
