//! RISC-V task switch context and user trap frame.

use vstd::prelude::*;

verus! {

/// RISC-V task switch context.
#[derive(Debug, Clone, Copy)]
pub struct TaskContext {
    /// Return address (ra).
    pub ra: usize,
    /// Stack pointer (sp).
    pub sp: usize,
    /// Callee-saved registers s0-s11.
    pub s: [usize; 12],
}

impl TaskContext {
    /// A context that returns to `ra` on stack `sp`, callee-saved registers zero.
    pub fn new(ra: usize, sp: usize) -> (r: Self)
        ensures
            r.ra == ra,
            r.sp == sp,
            r.s@ == Seq::new(12, |i: int| 0usize),
    {
        let r = Self { ra, sp, s: [0; 12] };
        assert(r.s@ =~= Seq::new(12, |i: int| 0usize));
        r
    }

    /// An all-zero context.
    pub fn empty() -> (r: Self)
        ensures
            r.ra == 0,
            r.sp == 0,
            r.s@ == Seq::new(12, |i: int| 0usize),
    {
        let r = Self { ra: 0, sp: 0, s: [0; 12] };
        assert(r.s@ =~= Seq::new(12, |i: int| 0usize));
        r
    }

    /// Replaces the stack pointer.
    pub fn set_sp(&mut self, sp: usize)
        ensures
            *final(self) == (TaskContext { sp, ..*old(self) }),
    {
        self.sp = sp;
    }
}

/// RISC-V user trap frame.
#[derive(Debug, Copy, Clone)]
pub struct TrapFrame {
    /// General registers x0-x31.
    pub x: [usize; 32],
    /// Exception return address.
    pub sepc: usize,
    /// Kernel page table token.
    pub k_satp: usize,
    /// Kernel stack pointer.
    pub k_sp: usize,
    /// Trap handler entry.
    pub trap_handler: usize,
    /// Kernel per-CPU base.
    pub kernel_percpu: usize,
    /// Supervisor status bits.
    pub sstatus: usize,
    /// Floating-point state.
    pub fg: [usize; 2],
}

impl TrapFrame {
    /// Replaces the kernel stack pointer.
    pub fn update_k_sp(&mut self, val: usize)
        ensures
            *final(self) == (TrapFrame { k_sp: val, ..*old(self) }),
    {
        self.k_sp = val;
    }

    /// Replaces the user stack pointer (x2).
    pub fn update_user_sp(&mut self, val: usize)
        ensures
            final(self).x@ == old(self).x@.update(2, val),
            *final(self) == (TrapFrame { x: final(self).x, ..*old(self) }),
    {
        self.x[2] = val;
    }

    /// Replaces the thread pointer (x4).
    pub fn update_tls(&mut self, val: usize)
        ensures
            final(self).x@ == old(self).x@.update(4, val),
            *final(self) == (TrapFrame { x: final(self).x, ..*old(self) }),
    {
        self.x[4] = val;
    }

    /// Sets the value returned to user mode (a0, x10).
    pub fn update_result(&mut self, val: usize)
        ensures
            final(self).x@ == old(self).x@.update(10, val),
            *final(self) == (TrapFrame { x: final(self).x, ..*old(self) }),
    {
        self.x[10] = val;
    }

    /// The user program counter.
    pub fn user_pc(&self) -> (r: usize)
        ensures
            r == self.sepc,
    {
        self.sepc
    }

    /// Replaces the user program counter.
    pub fn update_user_pc(&mut self, val: usize)
        ensures
            *final(self) == (TrapFrame { sepc: val, ..*old(self) }),
    {
        self.sepc = val;
    }

    /// The system call number (a7) and arguments (a0 to a5).
    pub fn parameters(&self) -> (r: [usize; 7])
        ensures
            r@ == seq![self.x@[17], self.x@[10], self.x@[11], self.x@[12], self.x@[13], self.x@[14], self.x@[15]],
    {
        [self.x[17], self.x[10], self.x[11], self.x[12], self.x[13], self.x[14], self.x[15]]
    }
}

} // verus!
