use vstd::prelude::*;
use crate::state::TICKS_PER_SECOND;

verus! {

/// The frequency that the simulated performance counter reports.
pub const PERFORMANCE_COUNTER_FREQUENCY: i64 = 0x1_0000_0000;

/// The ticks of a `Sleep` of some milliseconds.
pub fn ticks_from_milliseconds(milliseconds: u32) -> (ticks: u64)
    ensures
        ticks == milliseconds * TICKS_PER_SECOND / 1000,
{
    (milliseconds as u64) * TICKS_PER_SECOND / 1000
}

/// Whole milliseconds elapsed after `ticks` ticks, kept to their low 32 bits,
/// as `GetTickCount` and `timeGetTime` report them.
pub fn milliseconds_from_ticks(ticks: u64) -> (milliseconds: u32)
    requires
        ticks * 1000 <= u64::MAX,
    ensures
        milliseconds == (ticks * 1000 / TICKS_PER_SECOND as int) as u32,
{
    (ticks * 1000 / TICKS_PER_SECOND) as u32
}

/// Whole milliseconds elapsed after `ticks` ticks, as `GetTickCount64`
/// reports them.
pub fn milliseconds_64_from_ticks(ticks: u64) -> (milliseconds: u64)
    ensures
        milliseconds == ticks * 1000 / TICKS_PER_SECOND as int,
{
    let wide: u128 = (ticks as u128) * 1000 / (TICKS_PER_SECOND as u128);
    assert(wide <= ticks) by (nonlinear_arith)
        requires
            wide == (ticks as u128) * 1000 / 3000,
    ;
    wide as u64
}

/// The simulated performance counter after `ticks` ticks: whole periods of
/// `PERFORMANCE_COUNTER_FREQUENCY` per second.
pub fn performance_counter_from_ticks(ticks: u64) -> (count: i64)
    requires
        ticks * 0x1_0000_0000 <= u64::MAX,
    ensures
        count == ticks * 0x1_0000_0000 / TICKS_PER_SECOND as int,
{
    let count: u64 = ticks * 0x1_0000_0000 / TICKS_PER_SECOND;
    assert(count <= i64::MAX) by (nonlinear_arith)
        requires
            count == ticks * 0x1_0000_0000 / 3000,
            ticks * 0x1_0000_0000 <= u64::MAX,
    ;
    count as i64
}

/// The hundred-nanosecond intervals elapsed after `ticks` ticks, kept to their
/// low 64 bits.
pub open spec fn file_time_intervals(ticks: u64) -> int {
    (ticks * 10_000_000 / TICKS_PER_SECOND as int) % 0x1_0000_0000_0000_0000
}

/// The system time as `GetSystemTimeAsFileTime` reports it after `ticks`
/// ticks: the low and the high 32 bits of the elapsed hundred-nanosecond
/// intervals.
pub fn file_time_from_ticks(ticks: u64) -> (parts: (u32, u32))
    ensures
        parts.0 == file_time_intervals(ticks) % 0x1_0000_0000,
        parts.1 == file_time_intervals(ticks) / 0x1_0000_0000,
{
    let wide: u128 = (ticks as u128) * 10_000_000 / (TICKS_PER_SECOND as u128);
    let intervals: u64 = (wide % 0x1_0000_0000_0000_0000u128) as u64;
    let low: u32 = (intervals % 0x1_0000_0000) as u32;
    let high: u32 = (intervals / 0x1_0000_0000) as u32;
    (low, high)
}

/// A sleep of some milliseconds lasts exactly that many milliseconds of the
/// millisecond clocks: the ticks it takes convert back to the same number.
pub proof fn lemma_sleep_milliseconds_round_trip(milliseconds: u32)
    ensures
        (milliseconds * TICKS_PER_SECOND / 1000) * 1000 / TICKS_PER_SECOND as int == milliseconds,
{
    assert((milliseconds * 3000 / 1000) == milliseconds * 3) by (nonlinear_arith);
    assert((milliseconds * 3) * 1000 / 3000 == milliseconds) by (nonlinear_arith);
}

/// The clocks derived from the tick count never run backwards: more ticks
/// give at least as many milliseconds and performance-counter counts.
pub proof fn lemma_clocks_monotonic(earlier: u64, later: u64)
    requires
        earlier <= later,
    ensures
        earlier * 1000 / TICKS_PER_SECOND as int <= later * 1000 / TICKS_PER_SECOND as int,
        earlier * 0x1_0000_0000 / TICKS_PER_SECOND as int <= later * 0x1_0000_0000
            / TICKS_PER_SECOND as int,
{
    assert(earlier * 1000 / 3000 <= later * 1000 / 3000) by (nonlinear_arith)
        requires
            earlier <= later,
    ;
    assert(earlier * 0x1_0000_0000 / 3000 <= later * 0x1_0000_0000 / 3000) by (nonlinear_arith)
        requires
            earlier <= later,
    ;
}

} // verus!
