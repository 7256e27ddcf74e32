//! Clock arithmetic: conversion between counter ticks and nanoseconds, the
//! boot baseline and the wall-clock epoch offset.

use vstd::arithmetic::div_mod::{lemma_div_is_ordered, lemma_fundamental_div_mod};
use vstd::arithmetic::mul::lemma_mul_inequality;
use vstd::prelude::*;

use crate::arch::calibrate_tsc_freq_cpuid;

verus! {

/// Nanoseconds per second.
pub const NANOS_PER_SEC: u64 = 1_000_000_000;
/// Microseconds per second.
pub const MICROS_PER_SEC: u64 = 1_000_000;
/// Milliseconds per second.
pub const MILLIS_PER_SEC: u64 = 1_000;

/// Counter frequency assumed on x86-64 before calibration (4 GHz).
pub const TSC_DEFAULT_FREQ_HZ: u64 = 4_000_000_000;
/// Timer frequency assumed on RISC-V before the platform sets it (12.5 MHz).
pub const RISCV_DEFAULT_CLOCK_FREQ_HZ: u64 = 12_500_000;

/// `ticks * 10^9 / freq`, truncated to 64 bits; 0 when the frequency is 0.
pub open spec fn ticks_to_nanos_spec(ticks: u64, freq: u64) -> u64 {
    if freq == 0 {
        0
    } else {
        ((ticks as int * NANOS_PER_SEC as int) / freq as int) as u64
    }
}

/// `nanos * freq / 10^9`, truncated to 64 bits.
pub open spec fn nanos_to_ticks_spec(nanos: u64, freq: u64) -> u64 {
    ((nanos as int * freq as int) / NANOS_PER_SEC as int) as u64
}

/// Ticks elapsed since `init`, saturating at 0.
pub open spec fn elapsed_ticks_spec(counter: u64, init: u64) -> u64 {
    if counter >= init {
        (counter - init) as u64
    } else {
        0
    }
}

/// The clock state of one architecture: counter frequency, counter value
/// at boot and the offset of the Unix epoch.
#[derive(Clone, Copy, Debug)]
pub struct TimeBase {
    pub freq_hz: u64,
    pub init_ticks: u64,
    pub epoch_offset_nanos: u64,
}

impl TimeBase {
    /// A clock with the given frequency, baseline 0 and epoch offset 0.
    pub fn new(freq_hz: u64) -> (r: Self)
        ensures
            r.freq_hz == freq_hz,
            r.init_ticks == 0,
            r.epoch_offset_nanos == 0,
    {
        TimeBase { freq_hz, init_ticks: 0, epoch_offset_nanos: 0 }
    }

    /// Monotonic nanoseconds for a raw counter value.
    pub open spec fn monotonic_spec(self, counter: u64) -> u64 {
        ticks_to_nanos_spec(elapsed_ticks_spec(counter, self.init_ticks), self.freq_hz)
    }

    /// Sets the counter frequency (x86-64 TSC).
    pub fn init_tsc_freq(&mut self, freq_hz: u64)
        ensures
            *final(self) == (TimeBase { freq_hz, ..*old(self) }),
    {
        self.freq_hz = freq_hz;
    }

    /// Sets the counter frequency (RISC-V timer).
    pub fn init_clock_freq(&mut self, freq_hz: u64)
        ensures
            *final(self) == (TimeBase { freq_hz, ..*old(self) }),
    {
        self.freq_hz = freq_hz;
    }

    /// Records the counter value at boot.
    pub fn init_time_baseline(&mut self, counter: u64)
        ensures
            *final(self) == (TimeBase { init_ticks: counter, ..*old(self) }),
    {
        self.init_ticks = counter;
    }

    /// Records the TSC value at boot.
    pub fn init_tsc_baseline(&mut self, counter: u64)
        ensures
            *final(self) == (TimeBase { init_ticks: counter, ..*old(self) }),
    {
        self.init_ticks = counter;
    }

    /// Sets the wall-clock offset.
    pub fn set_epoch_offset_nanos(&mut self, offset: u64)
        ensures
            *final(self) == (TimeBase { epoch_offset_nanos: offset, ..*old(self) }),
    {
        self.epoch_offset_nanos = offset;
    }

    /// The counter frequency (x86-64 name).
    pub fn tsc_frequency(&self) -> (r: u64)
        ensures
            r == self.freq_hz,
    {
        self.freq_hz
    }

    /// The counter frequency (RISC-V name).
    pub fn clock_frequency(&self) -> (r: u64)
        ensures
            r == self.freq_hz,
    {
        self.freq_hz
    }

    /// The wall-clock offset.
    pub fn epochoffset_nanos(&self) -> (r: u64)
        ensures
            r == self.epoch_offset_nanos,
    {
        self.epoch_offset_nanos
    }

    /// Ticks since the baseline for a raw counter value.
    pub fn current_ticks(&self, counter: u64) -> (r: u64)
        ensures
            r == elapsed_ticks_spec(counter, self.init_ticks),
    {
        counter.saturating_sub(self.init_ticks)
    }

    /// Converts ticks to nanoseconds.
    pub fn ticks_to_nanos(&self, ticks: u64) -> (r: u64)
        ensures
            r == ticks_to_nanos_spec(ticks, self.freq_hz),
    {
        let freq = self.freq_hz;
        if freq == 0 {
            return 0;
        }
        let wide: u128 = ticks as u128 * 1_000_000_000u128;
        (wide / freq as u128) as u64
    }

    /// Converts nanoseconds to ticks.
    pub fn nanos_to_ticks(&self, nanos: u64) -> (r: u64)
        ensures
            r == nanos_to_ticks_spec(nanos, self.freq_hz),
    {
        let freq = self.freq_hz;
        assert(nanos as int * freq as int <= u64::MAX as int * u64::MAX as int) by (nonlinear_arith);
        let wide: u128 = nanos as u128 * freq as u128;
        (wide / 1_000_000_000u128) as u64
    }

    /// Takes a calibrated TSC frequency in MHz, when there is one, and the
    /// TSC value at boot.
    pub fn apply_tsc_calibration(&mut self, mhz: Option<u64>, counter: u64)
        requires
            mhz is Some ==> mhz->0 * 1_000_000 <= u64::MAX,
        ensures
            *final(self) == (TimeBase {
                freq_hz: match mhz {
                    Some(m) => (m * 1_000_000) as u64,
                    None => old(self).freq_hz,
                },
                init_ticks: counter,
                ..*old(self)
            }),
    {
        if let Some(freq_mhz) = mhz {
            self.init_tsc_freq(freq_mhz * 1_000_000);
        }
        self.init_tsc_baseline(counter);
    }

    /// Calibrates the TSC frequency from CPUID, keeping the current one when
    /// CPUID reports none, and takes the TSC value at boot. Returns the
    /// calibration CPUID gave, in MHz: the frequency becomes that many MHz
    /// when there is one.
    pub fn init_tsc(&mut self, counter: u64) -> (r: Option<u64>)
        ensures
            final(self).init_ticks == counter,
            final(self).epoch_offset_nanos == old(self).epoch_offset_nanos,
            final(self).freq_hz == old(self).freq_hz || final(self).freq_hz % 1_000_000 == 0,
            r is Some ==> r->0 <= u64::MAX / 1_000_000,
            final(self).freq_hz == (match r {
                Some(m) => (m * 1_000_000) as u64,
                None => old(self).freq_hz,
            }),
    {
        let mhz = calibrate_tsc_freq_cpuid();
        self.apply_tsc_calibration(mhz, counter);
        mhz
    }

    /// Monotonic nanoseconds since the baseline for a raw counter value.
    pub fn monotonic_time_nanos(&self, counter: u64) -> (r: u64)
        ensures
            r == self.monotonic_spec(counter),
    {
        self.ticks_to_nanos(self.current_ticks(counter))
    }

    /// Nanoseconds since the Unix epoch for a raw counter value: monotonic
    /// time plus the epoch offset, which must not overflow.
    pub fn wall_time_nanos(&self, counter: u64) -> (r: u64)
        requires
            self.monotonic_spec(counter) + self.epoch_offset_nanos <= u64::MAX,
        ensures
            r == self.monotonic_spec(counter) + self.epoch_offset_nanos,
    {
        self.monotonic_time_nanos(counter) + self.epochoffset_nanos()
    }

    /// Milliseconds since the baseline.
    pub fn read_time_ms(&self, counter: u64) -> (r: u64)
        ensures
            r == self.monotonic_spec(counter) / 1_000_000,
    {
        self.monotonic_time_nanos(counter) / 1_000_000
    }

    /// Microseconds since the baseline.
    pub fn read_time_us(&self, counter: u64) -> (r: u64)
        ensures
            r == self.monotonic_spec(counter) / 1_000,
    {
        self.monotonic_time_nanos(counter) / 1_000
    }

    /// Nanoseconds since the baseline.
    pub fn read_time_ns(&self, counter: u64) -> (r: u64)
        ensures
            r == self.monotonic_spec(counter),
    {
        self.monotonic_time_nanos(counter)
    }

    /// Counter ticks for a time given as seconds and nanoseconds; the total
    /// in nanoseconds must fit in 64 bits.
    pub fn timespec_to_clock(&self, ts: &TimeSpec) -> (r: usize)
        requires
            ts.tv_sec as int * NANOS_PER_SEC as int + ts.tv_nsec as int <= u64::MAX,
        ensures
            r == nanos_to_ticks_spec(
                (ts.tv_sec as int * NANOS_PER_SEC as int + ts.tv_nsec as int) as u64,
                self.freq_hz,
            ) as usize,
    {
        assert(ts.tv_sec as int * NANOS_PER_SEC as int <= u64::MAX);
        let nanos = ts.tv_sec as u64 * NANOS_PER_SEC + ts.tv_nsec as u64;
        self.nanos_to_ticks(nanos) as usize
    }
}

/// A time as seconds and nanoseconds.
#[derive(Clone, Copy, Debug, PartialEq, Eq, Structural)]
pub struct TimeSpec {
    pub tv_sec: usize,
    pub tv_nsec: usize,
}

/// A time as seconds and microseconds.
#[derive(Clone, Copy, Debug, PartialEq, Eq, Structural)]
pub struct TimeVal {
    pub tv_sec: usize,
    pub tv_usec: usize,
}

impl TimeSpec {
    /// Splits a count of nanoseconds into seconds and nanoseconds.
    pub fn from_nanos(nanos: u64) -> (r: Self)
        ensures
            r.tv_sec == (nanos / NANOS_PER_SEC) as usize,
            r.tv_nsec == (nanos % NANOS_PER_SEC) as usize,
    {
        TimeSpec { tv_sec: (nanos / NANOS_PER_SEC) as usize, tv_nsec: (nanos % NANOS_PER_SEC) as usize }
    }
}

impl TimeVal {
    /// Splits a count of nanoseconds into seconds and whole microseconds.
    pub fn from_nanos(nanos: u64) -> (r: Self)
        ensures
            r.tv_sec == (nanos / NANOS_PER_SEC) as usize,
            r.tv_usec == ((nanos % NANOS_PER_SEC) / 1_000) as usize,
    {
        TimeVal {
            tv_sec: (nanos / NANOS_PER_SEC) as usize,
            tv_usec: ((nanos % NANOS_PER_SEC) / 1_000) as usize,
        }
    }
}

/// A clock calibrated to `mhz` MHz counts a second in `mhz * 10^6` ticks,
/// and its frequency is a whole number of MHz.
pub proof fn lemma_calibrated_clock_counts_seconds(tb: TimeBase, mhz: u64)
    requires
        0 < mhz <= u64::MAX / 1_000_000,
        tb.freq_hz == mhz * 1_000_000,
    ensures
        ticks_to_nanos_spec((mhz * 1_000_000) as u64, tb.freq_hz) == NANOS_PER_SEC,
        tb.freq_hz % 1_000_000 == 0,
{
    let f = tb.freq_hz as int;
    assert((f * NANOS_PER_SEC as int) / f == NANOS_PER_SEC as int) by (nonlinear_arith)
        requires f > 0;
    assert(f % 1_000_000 == 0) by (nonlinear_arith)
        requires f == mhz as int * 1_000_000;
}

/// Converting ticks to nanoseconds keeps their order, as long as the larger
/// count converts without truncation.
pub proof fn lemma_ticks_to_nanos_monotone(t1: u64, t2: u64, freq: u64)
    requires
        t1 <= t2,
        freq == 0 || (t2 as int * NANOS_PER_SEC as int) / freq as int <= u64::MAX,
    ensures
        ticks_to_nanos_spec(t1, freq) <= ticks_to_nanos_spec(t2, freq),
{
    if freq != 0 {
        lemma_mul_inequality(t1 as int, t2 as int, NANOS_PER_SEC as int);
        lemma_div_is_ordered(t1 as int * NANOS_PER_SEC as int, t2 as int * NANOS_PER_SEC as int, freq as int);
    }
}

/// Converting ticks to nanoseconds and back never gives more ticks than
/// there were, whether or not the first conversion truncates.
pub proof fn lemma_ticks_nanos_roundtrip(t: u64, freq: u64)
    requires
        freq > 0,
    ensures
        nanos_to_ticks_spec(ticks_to_nanos_spec(t, freq), freq) <= t,
{
    let x = t as int * NANOS_PER_SEC as int;
    let q = x / freq as int;
    let n = ticks_to_nanos_spec(t, freq);
    lemma_fundamental_div_mod(x, freq as int);
    assert(q * freq as int <= x) by (nonlinear_arith)
        requires x == freq as int * q + x % freq as int, 0 <= x % freq as int;
    assert(n == q as u64);
    assert(n as int <= q) by {
        if q > u64::MAX as int {
            assert(n as int <= u64::MAX as int);
        }
    }
    assert(0 <= q) by (nonlinear_arith)
        requires x >= 0, freq > 0, q == x / freq as int;
    assert(n as int * freq as int <= q * freq as int) by (nonlinear_arith)
        requires 0 <= n as int <= q, freq >= 0;
    let y = n as int * freq as int;
    lemma_div_is_ordered(y, x, NANOS_PER_SEC as int);
    assert(x / NANOS_PER_SEC as int == t as int) by (nonlinear_arith)
        requires x == t as int * NANOS_PER_SEC as int;
    assert(0 <= y / NANOS_PER_SEC as int) by (nonlinear_arith)
        requires y >= 0;
    assert(nanos_to_ticks_spec(n, freq) == (y / NANOS_PER_SEC as int) as u64);
}

/// Converting nanoseconds to ticks keeps their order, as long as the larger
/// count converts without truncation.
pub proof fn lemma_nanos_to_ticks_monotone(n1: u64, n2: u64, freq: u64)
    requires
        n1 <= n2,
        (n2 as int * freq as int) / NANOS_PER_SEC as int <= u64::MAX,
    ensures
        nanos_to_ticks_spec(n1, freq) <= nanos_to_ticks_spec(n2, freq),
{
    lemma_mul_inequality(n1 as int, n2 as int, freq as int);
    lemma_div_is_ordered(n1 as int * freq as int, n2 as int * freq as int, NANOS_PER_SEC as int);
    assert(0 <= (n1 as int * freq as int) / NANOS_PER_SEC as int) by (nonlinear_arith);
}

/// Monotonic time does not go backwards as the counter advances, as long as
/// the later reading converts without truncation.
pub proof fn lemma_monotonic_time_monotone(tb: TimeBase, c1: u64, c2: u64)
    requires
        c1 <= c2,
        tb.freq_hz == 0 || (elapsed_ticks_spec(c2, tb.init_ticks) as int * NANOS_PER_SEC as int)
            / tb.freq_hz as int <= u64::MAX,
    ensures
        tb.monotonic_spec(c1) <= tb.monotonic_spec(c2),
{
    lemma_ticks_to_nanos_monotone(
        elapsed_ticks_spec(c1, tb.init_ticks),
        elapsed_ticks_spec(c2, tb.init_ticks),
        tb.freq_hz,
    );
}

/// Right after the baseline is taken at counter value `c`, no ticks have
/// elapsed, and every later counter value counts from `c`.
pub proof fn lemma_baseline_restarts_ticks(tb: TimeBase, c: u64, later: u64)
    requires
        c <= later,
    ensures
        elapsed_ticks_spec(c, (TimeBase { init_ticks: c, ..tb }).init_ticks) == 0,
        elapsed_ticks_spec(later, (TimeBase { init_ticks: c, ..tb }).init_ticks) == later - c,
{
}

/// Splitting nanoseconds into seconds and nanoseconds loses nothing: the
/// parts recombine to the count, with the nanosecond part below one second.
pub proof fn lemma_timespec_split(nanos: u64)
    ensures
        (nanos / NANOS_PER_SEC) as int * NANOS_PER_SEC as int + (nanos % NANOS_PER_SEC) as int == nanos,
        nanos % NANOS_PER_SEC < NANOS_PER_SEC,
{
    lemma_fundamental_div_mod(nanos as int, NANOS_PER_SEC as int);
}

} // verus!
