//! Instants as seconds and nanoseconds since the Unix epoch, the clock, and
//! the expiry rules of issued tokens.
use vstd::prelude::*;

verus! {

/// Seconds since the epoch of the latest instant the calendar can hold
/// (December 31, 262142, 23:59:59 UTC).
pub const MAX_TIMESTAMP_SECS: i64 = 8_210_266_876_799;

/// Seconds in one day.
pub const SECS_PER_DAY: i64 = 86_400;

/// How long an issued login token stays valid, in seconds: one day.
pub const LOGIN_TOKEN_LIFETIME_SECS: i64 = SECS_PER_DAY;

/// An instant in UTC: whole seconds since 1970-01-01T00:00:00 and the
/// nanoseconds past that second.
#[derive(Debug, Clone, Copy, PartialEq, Eq, Structural)]
pub struct Timestamp {
    pub secs: i64,
    pub nanos: u32,
}

/// `a` comes strictly before `b`.
pub open spec fn spec_is_before(a: Timestamp, b: Timestamp) -> bool {
    a.secs < b.secs || (a.secs == b.secs && a.nanos < b.nanos)
}

/// The time since the Unix epoch that the system clock reports, in whole
/// seconds and the nanoseconds past them, through
/// `std::time::SystemTime::now().duration_since(UNIX_EPOCH)`. `None` where the
/// clock reads a time before the epoch (`duration_since` then fails).
/// Claimed, as `Duration::subsec_nanos` documents: the nanoseconds stay
/// below one second. Nothing else is stated: the value depends on the clock.
#[verifier::external_body]
pub(crate) fn system_clock_since_epoch() -> (res: Option<(u64, u32)>)
    ensures
        res matches Some((_, nanos)) ==> nanos < 1_000_000_000,
{
    std::time::SystemTime::now()
        .duration_since(std::time::UNIX_EPOCH)
        .ok()
        .map(|d| (d.as_secs(), d.subsec_nanos()))
}

/// The UTC instant `secs` seconds and `nanos` nanoseconds after the epoch as
/// `chrono::DateTime::from_timestamp` builds it, read back through
/// `timestamp` and `timestamp_subsec_nanos`. Claimed, as its source shows:
/// an instant it builds is the one asked for; every instant from the epoch
/// to the end of the calendar with less than a second of nanoseconds is
/// built; and none past the end of the calendar is.
#[verifier::external_body]
fn utc_from_timestamp(secs: i64, nanos: u32) -> (res: Option<Timestamp>)
    ensures
        res matches Some(t) ==> t == (Timestamp { secs, nanos }),
        0 <= secs <= MAX_TIMESTAMP_SECS && nanos < 1_000_000_000 ==> res is Some,
        secs > MAX_TIMESTAMP_SECS ==> res is None,
{
    chrono::DateTime::from_timestamp(secs, nanos).map(
        |d| Timestamp { secs: d.timestamp(), nanos: d.timestamp_subsec_nanos() },
    )
}

/// The calendar instant of a clock reading (whole seconds since the epoch
/// and the nanoseconds past them): the reading itself, where the calendar
/// holds it; `None` for a reading past the end of the calendar or for no
/// reading at all (a clock before the epoch).
pub open spec fn spec_instant_from_clock(reading: Option<(u64, u32)>) -> Option<Timestamp> {
    match reading {
        Some((s, n)) => if s <= MAX_TIMESTAMP_SECS as u64 {
            Some(Timestamp { secs: s as i64, nanos: n })
        } else {
            None
        },
        None => None,
    }
}

/// `reading` is a reading that the system clock can give: no reading, or
/// whole seconds and less than a second of nanoseconds.
pub open spec fn is_clock_reading(reading: Option<(u64, u32)>) -> bool {
    reading matches Some((_, n)) ==> n < 1_000_000_000
}

/// `now` is what reading the clock can give: no instant, or an instant from
/// the epoch to the end of the calendar with less than a second of
/// nanoseconds.
pub open spec fn is_clock_instant(now: Option<Timestamp>) -> bool {
    now matches Some(t) ==> 0 <= t.secs <= MAX_TIMESTAMP_SECS && t.nanos < 1_000_000_000
}

/// The calendar instant of a clock reading: see `spec_instant_from_clock`.
/// The instant is built by `chrono`, as `chrono::Utc::now` builds it.
pub fn instant_from_clock(reading: Option<(u64, u32)>) -> (res: Option<Timestamp>)
    requires
        reading matches Some((_, n)) ==> n < 1_000_000_000,
    ensures
        res == spec_instant_from_clock(reading),
{
    match reading {
        None => None,
        Some((secs, nanos)) => {
            if secs > MAX_TIMESTAMP_SECS as u64 {
                None
            } else {
                utc_from_timestamp(secs as i64, nanos)
            }
        },
    }
}

/// The current instant by the system clock, as `chrono::Utc::now` reads it:
/// the calendar instant of the time since the epoch that the clock reports
/// (see `instant_from_clock`). `None` where the clock reads a time before
/// the epoch or past the end of the calendar, where that function panics
/// instead.
pub fn utc_now() -> (res: Option<Timestamp>)
    ensures
        exists|reading: Option<(u64, u32)>|
            #[trigger] is_clock_reading(reading) && res == spec_instant_from_clock(reading),
        is_clock_instant(res),
{
    let reading = system_clock_since_epoch();
    let res = instant_from_clock(reading);
    assert(is_clock_reading(reading));
    res
}

/// Whether `a` comes strictly before `b`.
pub fn is_before(a: Timestamp, b: Timestamp) -> (res: bool)
    ensures
        res == spec_is_before(a, b),
{
    a.secs < b.secs || (a.secs == b.secs && a.nanos < b.nanos)
}

/// `is_before` is the chronological strict order of instants: no instant
/// comes before itself; of two instants at most one comes before the other,
/// and of two different ones exactly one; it is transitive; an instant with
/// fewer whole seconds comes before one with more, and one with more whole
/// seconds never comes before one with fewer, whatever their nanoseconds;
/// within the same second, the one with fewer nanoseconds comes first.
pub proof fn lemma_is_before_is_chronological(a: Timestamp, b: Timestamp, c: Timestamp)
    ensures
        !spec_is_before(a, a),
        spec_is_before(a, b) ==> !spec_is_before(b, a),
        a != b ==> spec_is_before(a, b) || spec_is_before(b, a),
        spec_is_before(a, b) && spec_is_before(b, c) ==> spec_is_before(a, c),
        a.secs < b.secs ==> spec_is_before(a, b),
        a.secs > b.secs ==> !spec_is_before(a, b),
        a.secs == b.secs ==> (spec_is_before(a, b) <==> a.nanos < b.nanos),
{
}

/// The instant one day after `now`.
pub open spec fn spec_one_day_after(now: Timestamp) -> Timestamp {
    Timestamp { secs: (now.secs + SECS_PER_DAY) as i64, nanos: now.nanos }
}

/// The instant one day after `now`; the calendar must be able to hold it.
pub fn one_day_after(now: Timestamp) -> (res: Timestamp)
    requires
        now.secs + SECS_PER_DAY <= MAX_TIMESTAMP_SECS,
    ensures
        res == spec_one_day_after(now),
{
    Timestamp { secs: now.secs + SECS_PER_DAY, nanos: now.nanos }
}

} // verus!
