//! Kernel configuration constants for the QEMU x86-64 platform.

use vstd::prelude::*;

verus! {

/// Banner of the kernel.
pub const ALIEN_FLAG: &'static str = r"
     _      _   _
    / \    | | (_)   ___   _ __
   / _ \   | | | |  / _ \ | '_ \
  / ___ \  | | | | |  __/ | | | |
 /_/   \_\ |_| |_|  \___| |_| |_|
";

/// Size of a physical frame.
pub const FRAME_SIZE: usize = 0x1000;
/// Size of a page.
pub const PAGE_SIZE: usize = FRAME_SIZE;
/// Bits of the frame size.
pub const FRAME_BITS: usize = 12;
/// Size of the boot stack.
pub const STACK_SIZE: usize = 1024 * 64;
/// Bits of the boot stack size.
pub const STACK_SIZE_BITS: usize = 16;
/// Number of CPUs started.
pub const CPU_NUM: usize = 4;
/// Size of the kernel heap (larger on x86-64, whose domain images are bigger).
pub const KERNEL_HEAP_SIZE: usize = 0x1000_0000;
/// Base of the trampoline page, two frames below the top of the address space.
pub const TRAMPOLINE: usize = usize::MAX - 2 * FRAME_SIZE + 1;
/// Base of the trap context page, just below the trampoline.
pub const TRAP_CONTEXT_BASE: usize = TRAMPOLINE - FRAME_SIZE;
/// Kernel stack size of a user task.
pub const USER_KERNEL_STACK_SIZE: usize = FRAME_SIZE * 16;
/// Stack size of a kernel thread.
pub const KTHREAD_STACK_SIZE: usize = FRAME_SIZE * 2;
/// Limit on the number of threads.
pub const MAX_THREAD_NUM: usize = 65536;
/// Limit on the number of file descriptors.
pub const MAX_FD_NUM: usize = 4096;
/// User stack size of an application.
pub const USER_STACK_SIZE: usize = 0x50_000;
/// Base at which position-independent ELF programs are placed.
pub const ELF_BASE_RELOCATE: usize = 0x400_0000;
/// Limit on queued input events.
pub const MAX_INPUT_EVENT_NUM: u32 = 1024;
/// Limit on a process heap.
pub const PROCESS_HEAP_MAX: u64 = 0x1_0000_0000;
/// Capacity of a pipe.
pub const PIPE_BUF: usize = 65536;

/// TSC frequency in Hz assumed before calibration (4 GHz).
pub const CLOCK_FREQ: usize = 4_000_000_000;
/// Nanoseconds per second.
pub const NANOS_PER_SEC: usize = 1_000_000_000;
/// Microseconds per second.
pub const MICROS_PER_SEC: usize = 1_000_000;
/// Milliseconds per second.
pub const MILLIS_PER_SEC: usize = 1_000;
/// Offset of the higher-half kernel mapping of physical memory.
pub const PHYS_VIRT_OFFSET: u64 = 0xFFFF_8000_0000_0000;
/// Physical load address of the kernel.
pub const KERNEL_LOAD_PADDR: usize = 0x20_0000;
/// Boot stack size (32 KiB).
pub const BOOT_STACK_SIZE: usize = 0x8000;
/// Default physical base of the local APIC.
pub const LOCAL_APIC_BASE: usize = 0xFEE0_0000;
/// Physical base of the I/O APIC.
pub const IO_APIC_BASE: usize = 0xFEC0_0000;
/// APIC timer vector.
pub const APIC_TIMER_VECTOR: u8 = 0xF0;
/// APIC spurious interrupt vector.
pub const APIC_SPURIOUS_VECTOR: u8 = 0xF1;
/// APIC error vector.
pub const APIC_ERROR_VECTOR: u8 = 0xF2;
/// First vector of external interrupts, after the CPU exceptions.
pub const IRQ_BASE_VECTOR: u8 = 32;
/// System call interrupt vector.
pub const SYSCALL_VECTOR: u8 = 0x80;
/// I/O port of COM1.
pub const COM1_PORT: u16 = 0x3F8;
/// I/O port of COM2.
pub const COM2_PORT: u16 = 0x2F8;
/// MMIO windows of the QEMU x86-64 machine: I/O APIC, local APIC, PCI.
pub const MMIO_RANGES: [(usize, usize); 3] = [
    (0xFEC0_0000, 0x1000),
    (0xFEE0_0000, 0x1000),
    (0xE000_0000, 0x1000_0000),
];

} // verus!
