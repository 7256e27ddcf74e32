//! Plain data exchanged with device and service domains.

use std::ops::Range;
use vstd::prelude::*;

verus! {

/// Base address of an I/O APIC handed to its domain.
#[derive(Clone, Copy, Debug)]
pub struct IoAPICHooks {
    pub ioapic_base: usize,
}

/// Base address of the local APIC handed to its domain.
#[derive(Clone, Copy, Debug)]
pub struct LocalAPICHooks {
    pub xapic_base: usize,
}

/// Severity of a log record.
#[derive(Clone, Copy, PartialEq, Eq, PartialOrd, Ord, Debug, Hash, Structural)]
pub enum Level {
    /// Serious errors.
    Error,
    /// Potential problems.
    Warn,
    /// Ordinary information.
    Info,
    /// Debugging information.
    Debug,
    /// The most detailed tracing.
    Trace,
}

/// Which log records pass.
#[derive(Clone, Copy, PartialEq, Eq, PartialOrd, Ord, Debug, Hash, Structural)]
pub enum LevelFilter {
    /// No record passes.
    Off,
    /// As `Level::Error`.
    Error,
    /// As `Level::Warn`.
    Warn,
    /// As `Level::Info`.
    Info,
    /// As `Level::Debug`.
    Debug,
    /// As `Level::Trace`.
    Trace,
}

/// The number a level is encoded as: 1 (error) to 5 (trace), matching the
/// filter of the same name.
pub open spec fn level_value(level: Level) -> usize {
    match level {
        Level::Error => 1,
        Level::Warn => 2,
        Level::Info => 3,
        Level::Debug => 4,
        Level::Trace => 5,
    }
}

/// The number a filter is encoded as: 0 (off) to 5 (trace).
pub open spec fn filter_value(filter: LevelFilter) -> usize {
    match filter {
        LevelFilter::Off => 0,
        LevelFilter::Error => 1,
        LevelFilter::Warn => 2,
        LevelFilter::Info => 3,
        LevelFilter::Debug => 4,
        LevelFilter::Trace => 5,
    }
}

/// The filter of the same name as a level.
pub open spec fn filter_named(level: Level) -> LevelFilter {
    match level {
        Level::Error => LevelFilter::Error,
        Level::Warn => LevelFilter::Warn,
        Level::Info => LevelFilter::Info,
        Level::Debug => LevelFilter::Debug,
        Level::Trace => LevelFilter::Trace,
    }
}

/// Levels and filters share one numbering: every level is encoded as the
/// filter of the same name; filters count 0 (off) to 5 upwards from the
/// most to the least severe, so the levels count 1 (error) to 5 (trace) in
/// their order, and no two levels share a number.
pub proof fn lemma_level_encoding()
    ensures
        forall|l: Level| #[trigger] level_value(l) == filter_value(filter_named(l)),
        forall|l1: Level, l2: Level| #[trigger] level_value(l1) == #[trigger] level_value(l2) ==> l1 == l2,
        filter_value(LevelFilter::Off) == 0,
        filter_value(LevelFilter::Off) + 1 == filter_value(LevelFilter::Error),
        filter_value(LevelFilter::Error) + 1 == filter_value(LevelFilter::Warn),
        filter_value(LevelFilter::Warn) + 1 == filter_value(LevelFilter::Info),
        filter_value(LevelFilter::Info) + 1 == filter_value(LevelFilter::Debug),
        filter_value(LevelFilter::Debug) + 1 == filter_value(LevelFilter::Trace),
        level_value(Level::Error) == 1,
        level_value(Level::Error) < level_value(Level::Warn),
        level_value(Level::Warn) < level_value(Level::Info),
        level_value(Level::Info) < level_value(Level::Debug),
        level_value(Level::Debug) < level_value(Level::Trace),
        level_value(Level::Trace) == 5,
{
}

impl Level {
    /// The number this level is encoded as across domains.
    pub fn value(&self) -> (r: usize)
        ensures
            r == level_value(*self),
    {
        match self {
            Level::Error => 1,
            Level::Warn => 2,
            Level::Info => 3,
            Level::Debug => 4,
            Level::Trace => 5,
        }
    }
}

impl LevelFilter {
    /// The number this filter is encoded as across domains.
    pub fn value(&self) -> (r: usize)
        ensures
            r == filter_value(*self),
    {
        match self {
            LevelFilter::Off => 0,
            LevelFilter::Error => 1,
            LevelFilter::Warn => 2,
            LevelFilter::Info => 3,
            LevelFilter::Debug => 4,
            LevelFilter::Trace => 5,
        }
    }
}

/// The kind of platform interrupt controller.
#[derive(Copy, Clone, Debug, PartialEq, Eq, Structural)]
pub enum PlicType {
    Qemu,
    SiFive,
}

/// Where the platform interrupt controller lives and which kind it is.
#[derive(Debug)]
pub struct PlicInfo {
    pub device_info: Range<usize>,
    pub ty: PlicType,
}

impl Clone for PlicInfo {
    fn clone(&self) -> (r: Self)
        ensures
            r == *self,
    {
        PlicInfo { device_info: self.device_info.start..self.device_info.end, ty: self.ty }
    }
}

/// The bounds of a task's temporary heap.
#[derive(Debug)]
pub struct TmpHeapInfo {
    pub start: usize,
    pub current: usize,
}

impl Default for TmpHeapInfo {
    fn default() -> (r: Self)
        ensures
            r == (TmpHeapInfo { start: 0, current: 0 }),
    {
        TmpHeapInfo { start: 0, current: 0 }
    }
}

} // verus!
