//! Bit positions of the x86-64 RFLAGS register.

use vstd::prelude::*;

verus! {

/// Carry Flag
pub const CF: u64 = 1;
/// Parity Flag
pub const PF: u64 = 0x4;
/// Auxiliary Carry Flag
pub const AF: u64 = 0x10;
/// Zero Flag
pub const ZF: u64 = 0x40;
/// Sign Flag
pub const SF: u64 = 0x80;
/// Trap Flag (single step)
pub const TF: u64 = 0x100;
/// Interrupt Enable Flag
pub const IF: u64 = 0x200;
/// Direction Flag
pub const DF: u64 = 0x400;
/// Overflow Flag
pub const OF: u64 = 0x800;
/// I/O Privilege Level (bits 12-13)
pub const IOPL_MASK: u64 = 0x3000;
/// Nested Task
pub const NT: u64 = 0x4000;
/// Resume Flag
pub const RF: u64 = 0x1_0000;
/// Virtual 8086 Mode
pub const VM: u64 = 0x2_0000;
/// Alignment Check
pub const AC: u64 = 0x4_0000;
/// Virtual Interrupt Flag
pub const VIF: u64 = 0x8_0000;
/// Virtual Interrupt Pending
pub const VIP: u64 = 0x10_0000;
/// ID Flag (CPUID available)
pub const ID: u64 = 0x20_0000;

} // verus!
