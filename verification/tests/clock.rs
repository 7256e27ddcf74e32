use alien_base::clock::{TimeBase, TimeSpec, TimeVal, RISCV_DEFAULT_CLOCK_FREQ_HZ, TSC_DEFAULT_FREQ_HZ};

#[test]
fn ticks_and_nanos_convert_at_the_clock_frequency() {
    let tb = TimeBase::new(TSC_DEFAULT_FREQ_HZ);
    assert_eq!(tb.ticks_to_nanos(4_000_000_000), 1_000_000_000);
    assert_eq!(tb.ticks_to_nanos(3), 0);
    assert_eq!(tb.nanos_to_ticks(1_000_000_000), 4_000_000_000);
    assert_eq!(tb.nanos_to_ticks(1), 4);
    let rv = TimeBase::new(RISCV_DEFAULT_CLOCK_FREQ_HZ);
    assert_eq!(rv.ticks_to_nanos(12_500_000), 1_000_000_000);
    assert_eq!(rv.nanos_to_ticks(80), 1);
}

#[test]
fn zero_frequency_gives_zero_nanos() {
    let tb = TimeBase::new(0);
    assert_eq!(tb.ticks_to_nanos(123456), 0);
    assert_eq!(tb.nanos_to_ticks(123456), 0);
}

#[test]
fn large_tick_counts_truncate_to_64_bits() {
    let tb = TimeBase::new(1);
    let expected = ((u64::MAX as u128 * 1_000_000_000u128) as u64);
    assert_eq!(tb.ticks_to_nanos(u64::MAX), expected);
}

#[test]
fn ticks_count_from_the_baseline_and_saturate() {
    let mut tb = TimeBase::new(1_000_000_000);
    tb.init_time_baseline(500);
    assert_eq!(tb.current_ticks(800), 300);
    assert_eq!(tb.current_ticks(100), 0);
    assert_eq!(tb.monotonic_time_nanos(1500), 1000);
    tb.set_epoch_offset_nanos(7);
    assert_eq!(tb.epochoffset_nanos(), 7);
    assert_eq!(tb.wall_time_nanos(1500), 1007);
    assert_eq!(tb.read_time_ns(1500), 1000);
    assert_eq!(tb.read_time_us(2_000_500), 2000);
    assert_eq!(tb.read_time_ms(2_000_000_500), 2000);
}

#[test]
fn frequency_setters_and_getters() {
    let mut tb = TimeBase::new(TSC_DEFAULT_FREQ_HZ);
    assert_eq!(tb.tsc_frequency(), 4_000_000_000);
    tb.init_tsc_freq(2_000_000_000);
    assert_eq!(tb.tsc_frequency(), 2_000_000_000);
    tb.init_clock_freq(10_000_000);
    assert_eq!(tb.clock_frequency(), 10_000_000);
    tb.init_tsc_baseline(42);
    assert_eq!(tb.init_ticks, 42);
    tb.apply_tsc_calibration(Some(3000), 9);
    assert_eq!(tb.freq_hz, 3_000_000_000);
    assert_eq!(tb.init_ticks, 9);
    tb.apply_tsc_calibration(None, 10);
    assert_eq!(tb.freq_hz, 3_000_000_000);
    assert_eq!(tb.init_ticks, 10);
}

#[test]
fn init_tsc_keeps_the_baseline_given() {
    let mut tb = TimeBase::new(TSC_DEFAULT_FREQ_HZ);
    tb.init_tsc(77);
    assert_eq!(tb.init_ticks, 77);
    assert!(tb.freq_hz == TSC_DEFAULT_FREQ_HZ || tb.freq_hz % 1_000_000 == 0);
}

#[test]
fn timespec_and_timeval_split_nanoseconds() {
    let ts = TimeSpec::from_nanos(3_000_000_123);
    assert_eq!(ts, TimeSpec { tv_sec: 3, tv_nsec: 123 });
    let tv = TimeVal::from_nanos(3_000_456_789);
    assert_eq!(tv, TimeVal { tv_sec: 3, tv_usec: 456 });
    let tb = TimeBase::new(1_000_000);
    assert_eq!(tb.timespec_to_clock(&TimeSpec { tv_sec: 2, tv_nsec: 500_000_000 }), 2_500_000);
    assert_eq!(tb.timespec_to_clock(&ts), 3_000_000);
}

#[test]
fn ticks_round_trip_never_overshoots_even_when_truncated() {
    let tb = TimeBase::new(3);
    for t in [0u64, 1, 2, 3, 1 << 40, 1 << 62, u64::MAX] {
        assert!(tb.nanos_to_ticks(tb.ticks_to_nanos(t)) <= t);
    }
    let tsc = TimeBase::new(2_400_000_000);
    assert_eq!(tsc.nanos_to_ticks(tsc.ticks_to_nanos(2_400_000_001)), 2_400_000_000);
}

#[test]
fn nanos_to_ticks_keeps_order() {
    let tb = TimeBase::new(2_000_000_000);
    assert!(tb.nanos_to_ticks(999) <= tb.nanos_to_ticks(1_000));
    assert_eq!(tb.nanos_to_ticks(1_000), 2_000);
    assert_eq!(tb.nanos_to_ticks(1_000_000_000), 2_000_000_000);
}
