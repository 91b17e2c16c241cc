use winter::time::{
    file_time_from_ticks, milliseconds_64_from_ticks, milliseconds_from_ticks,
    performance_counter_from_ticks, ticks_from_milliseconds, PERFORMANCE_COUNTER_FREQUENCY,
};

#[test]
fn milliseconds_to_ticks() {
    assert_eq!(ticks_from_milliseconds(0), 0);
    assert_eq!(ticks_from_milliseconds(1), 3);
    assert_eq!(ticks_from_milliseconds(1000), 3000);
    assert_eq!(ticks_from_milliseconds(u32::MAX), u32::MAX as u64 * 3);
}

#[test]
fn ticks_to_milliseconds() {
    assert_eq!(milliseconds_from_ticks(50), 16);
    assert_eq!(milliseconds_from_ticks(100), 33);
    assert_eq!(milliseconds_from_ticks(3000), 1000);
    // 2^32 ms and a bit later wraps around.
    assert_eq!(milliseconds_from_ticks(3 * 0x1_0000_0000 + 6), 2);
    assert_eq!(milliseconds_64_from_ticks(3 * 0x1_0000_0000 + 6), 0x1_0000_0002);
    assert_eq!(milliseconds_64_from_ticks(u64::MAX), u64::MAX / 3);
}

#[test]
fn sleep_round_trips_through_tick_count() {
    for ms in [0u32, 1, 17, 1000, 123_456] {
        assert_eq!(milliseconds_from_ticks(ticks_from_milliseconds(ms)), ms);
    }
}

#[test]
fn performance_counter() {
    assert_eq!(PERFORMANCE_COUNTER_FREQUENCY, 0x1_0000_0000);
    assert_eq!(performance_counter_from_ticks(3000), 0x1_0000_0000);
    assert_eq!(performance_counter_from_ticks(1), 0x1_0000_0000 / 3000);
    assert!(performance_counter_from_ticks(2) <= performance_counter_from_ticks(3));
}

#[test]
fn system_file_time() {
    assert_eq!(file_time_from_ticks(0), (0, 0));
    assert_eq!(file_time_from_ticks(1), (3333, 0));
    assert_eq!(file_time_from_ticks(3000), (10_000_000, 0));
    // 1000 s: 10^10 intervals = 0x2_540B_E400.
    assert_eq!(file_time_from_ticks(3_000_000), (0x540B_E400, 2));
}
