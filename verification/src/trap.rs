//! The x86-64 user trap frame: the registers saved on entry from user mode
//! and restored on return.

use vstd::prelude::*;

verus! {

/// `x86_64::structures::gdt::SegmentSelector::new(index, Ring3).0`, whose
/// body is `(index << 3) | 3`.
#[verifier::external_body]
fn user_segment_selector(index: u16) -> (r: u16)
    ensures
        r == (index << 3u16) | 3u16,
{
    x86_64::structures::gdt::SegmentSelector::new(index, x86_64::PrivilegeLevel::Ring3).0
}

/// `x86_64::registers::rflags::RFlags::INTERRUPT_FLAG.bits()`, bit 9.
#[verifier::external_body]
fn interrupt_flag_bits() -> (r: u64)
    ensures
        r == 0x200,
{
    x86_64::registers::rflags::RFlags::INTERRUPT_FLAG.bits()
}

/// Code segment selector of user mode: GDT entry 6, ring 3.
pub open spec fn user_code_selector() -> usize {
    0x33
}

/// Data segment selector of user mode: GDT entry 5, ring 3.
pub open spec fn user_data_selector() -> usize {
    0x2b
}

/// RFLAGS of a task entering user mode: interrupts on, reserved bit 1 set.
pub open spec fn user_rflags() -> usize {
    0x202
}

/// Offset of the kernel page table field in a trap frame.
pub const OFFSET_K_CR3: usize = 0;
/// Offset of the kernel stack pointer field in a trap frame.
pub const OFFSET_K_SP: usize = 8;
/// Size of a trap frame: 24 machine words.
pub const RSP0_TOP_SIZE: usize = 192;
/// Size of the user context saved on the kernel stack.
pub const USER_CONTEXT_SIZE: usize = RSP0_TOP_SIZE;

/// x86-64 user trap frame.
#[derive(Debug, Copy, Clone)]
pub struct TrapFrame {
    /// Kernel page table to switch to on a trap.
    pub k_cr3: usize,
    /// Kernel stack pointer to switch to on a trap.
    pub k_sp: usize,
    pub r15: usize,
    pub r14: usize,
    pub r13: usize,
    pub r12: usize,
    pub rbp: usize,
    pub rbx: usize,
    pub r11: usize,
    pub r10: usize,
    pub r9: usize,
    pub r8: usize,
    pub rsi: usize,
    pub rdi: usize,
    pub rdx: usize,
    pub rcx: usize,
    pub rax: usize,
    pub vector: usize,
    pub error_code: usize,
    pub rip: usize,
    pub cs: usize,
    pub rflags_val: usize,
    pub rsp: usize,
    pub ss: usize,
}

/// The saved registers of a trap frame, as plain values.
pub struct TrapFrameView {
    pub k_cr3: usize,
    pub k_sp: usize,
    pub r15: usize,
    pub r14: usize,
    pub r13: usize,
    pub r12: usize,
    pub rbp: usize,
    pub rbx: usize,
    pub r11: usize,
    pub r10: usize,
    pub r9: usize,
    pub r8: usize,
    pub rsi: usize,
    pub rdi: usize,
    pub rdx: usize,
    pub rcx: usize,
    pub rax: usize,
    pub vector: usize,
    pub error_code: usize,
    pub rip: usize,
    pub cs: usize,
    pub rflags_val: usize,
    pub rsp: usize,
    pub ss: usize,
}

impl View for TrapFrame {
    type V = TrapFrameView;

    open spec fn view(&self) -> TrapFrameView {
        TrapFrameView {
            k_cr3: self.k_cr3,
            k_sp: self.k_sp,
            r15: self.r15,
            r14: self.r14,
            r13: self.r13,
            r12: self.r12,
            rbp: self.rbp,
            rbx: self.rbx,
            r11: self.r11,
            r10: self.r10,
            r9: self.r9,
            r8: self.r8,
            rsi: self.rsi,
            rdi: self.rdi,
            rdx: self.rdx,
            rcx: self.rcx,
            rax: self.rax,
            vector: self.vector,
            error_code: self.error_code,
            rip: self.rip,
            cs: self.cs,
            rflags_val: self.rflags_val,
            rsp: self.rsp,
            ss: self.ss,
        }
    }
}

impl TrapFrame {
    /// Whether the frame is the first frame of a user task entering at
    /// `entry` with user stack `sp`, kernel page table `k_cr3` and kernel
    /// stack `k_sp`: all general registers zero.
    pub open spec fn is_initial_user_frame(v: TrapFrameView, entry: usize, sp: usize, k_cr3: usize, k_sp: usize) -> bool {
        &&& v.k_cr3 == k_cr3
        &&& v.k_sp == k_sp
        &&& v.r15 == 0 && v.r14 == 0 && v.r13 == 0 && v.r12 == 0
        &&& v.rbp == 0 && v.rbx == 0 && v.r11 == 0 && v.r10 == 0
        &&& v.r9 == 0 && v.r8 == 0 && v.rsi == 0 && v.rdi == 0
        &&& v.rdx == 0 && v.rcx == 0 && v.rax == 0
        &&& v.vector == 0 && v.error_code == 0
        &&& v.rip == entry
        &&& v.cs == user_code_selector()
        &&& v.rflags_val == user_rflags()
        &&& v.rsp == sp
        &&& v.ss == user_data_selector()
    }

    fn init_for_task(entry: usize, sp: usize, k_cr3: usize, k_sp: usize) -> (r: Self)
        ensures
            Self::is_initial_user_frame(r@, entry, sp, k_cr3, k_sp),
    {
        let code = user_segment_selector(6);
        let data = user_segment_selector(5);
        let iflag = interrupt_flag_bits();
        assert((6u16 << 3u16) | 3u16 == 0x33u16 && (5u16 << 3u16) | 3u16 == 0x2bu16) by (bit_vector);
        assert(0x200u64 | 0x2u64 == 0x202u64) by (bit_vector);
        Self {
            k_cr3,
            k_sp,
            r15: 0,
            r14: 0,
            r13: 0,
            r12: 0,
            rbp: 0,
            rbx: 0,
            r11: 0,
            r10: 0,
            r9: 0,
            r8: 0,
            rsi: 0,
            rdi: 0,
            rdx: 0,
            rcx: 0,
            rax: 0,
            vector: 0,
            error_code: 0,
            rip: entry,
            cs: code as usize,
            rflags_val: (iflag | 0x2) as usize,
            rsp: sp,
            ss: data as usize,
        }
    }

    /// The first trap frame of a user task entering at `entry` with user
    /// stack `sp` and kernel stack `k_sp`, returning to the kernel page
    /// table `kernel_page_table_token` on traps.
    pub fn new_user(entry: usize, sp: usize, k_sp: usize, kernel_page_table_token: usize) -> (r: Self)
        ensures
            Self::is_initial_user_frame(r@, entry, sp, kernel_page_table_token, k_sp),
    {
        Self::init_for_task(entry, sp, kernel_page_table_token, k_sp)
    }

    /// Replaces the kernel stack pointer.
    pub fn update_k_sp(&mut self, val: usize)
        ensures
            final(self)@ == (TrapFrameView { k_sp: val, ..old(self)@ }),
    {
        self.k_sp = val;
    }

    /// The kernel stack pointer.
    pub fn kernel_sp(&self) -> (r: usize)
        ensures
            r == self@.k_sp,
    {
        self.k_sp
    }

    /// The kernel page table to switch to on a trap.
    pub fn kernel_page_table_token(&self) -> (r: usize)
        ensures
            r == self@.k_cr3,
    {
        self.k_cr3
    }

    /// Replaces the user stack pointer.
    pub fn update_user_sp(&mut self, val: usize)
        ensures
            final(self)@ == (TrapFrameView { rsp: val, ..old(self)@ }),
    {
        self.rsp = val;
    }

    /// The TLS pointer lives in the FS base on x86-64, not in the frame:
    /// nothing changes.
    pub fn update_tls(&mut self, val: usize)
        ensures
            final(self)@ == old(self)@,
    {
    }

    /// Sets the value returned to user mode (rax).
    pub fn update_result(&mut self, val: usize)
        ensures
            final(self)@ == (TrapFrameView { rax: val, ..old(self)@ }),
    {
        self.rax = val;
    }

    /// The user program counter.
    pub fn user_pc(&self) -> (r: usize)
        ensures
            r == self@.rip,
    {
        self.rip
    }

    /// Replaces the user program counter.
    pub fn update_user_pc(&mut self, val: usize)
        ensures
            final(self)@ == (TrapFrameView { rip: val, ..old(self)@ }),
    {
        self.rip = val;
    }

    /// The system call number and arguments: rax, then rdi, rsi, rdx, r10,
    /// r8, r9.
    pub fn parameters(&self) -> (r: [usize; 7])
        ensures
            r@ == seq![self@.rax, self@.rdi, self@.rsi, self@.rdx, self@.r10, self@.r8, self@.r9],
    {
        [self.rax, self.rdi, self.rsi, self.rdx, self.r10, self.r8, self.r9]
    }
}

} // verus!
