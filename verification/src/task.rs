//! Task metadata: identity, status, scheduling data, the x86-64 switch
//! context and the requests exchanged with the scheduler.

use vstd::prelude::*;

verus! {

/// Size in bytes of the frame a context switch pops: six callee-saved
/// registers and the return address.
pub const CONTEXT_SWITCH_FRAME_SIZE: usize = 56;

/// x86-64 FXSAVE/FXRSTOR state block.
#[derive(Debug, Clone, Copy)]
pub struct FpSimdState {
    pub fcw: u16,
    pub fsw: u16,
    pub ftw: u16,
    pub fop: u16,
    pub fip: u64,
    pub fdp: u64,
    pub mxcsr: u32,
    pub mxcsr_mask: u32,
    pub st: [u64; 16],
    pub xmm: [u64; 32],
    /// Reserved and software-available bytes of the FXSAVE area.
    pub padding: [u64; 12],
}

/// The state `FpSimdState::new` gives: x87 control word 0x37f, all tags
/// empty, MXCSR 0x1f80, every register and the reserved area zero.
pub open spec fn is_initial_fp_simd(s: FpSimdState) -> bool {
    &&& s.fcw == 0x37f
    &&& s.fsw == 0
    &&& s.ftw == 0xffff
    &&& s.fop == 0
    &&& s.fip == 0
    &&& s.fdp == 0
    &&& s.mxcsr == 0x1f80
    &&& s.mxcsr_mask == 0
    &&& forall|i: int| 0 <= i < 16 ==> s.st@[i] == 0
    &&& forall|i: int| 0 <= i < 32 ==> s.xmm@[i] == 0
    &&& forall|i: int| 0 <= i < 12 ==> s.padding@[i] == 0
}

/// There is one initial FP/SIMD state: two states that are both initial
/// are equal, field for field.
pub proof fn lemma_initial_fp_simd_unique(a: FpSimdState, b: FpSimdState)
    requires
        is_initial_fp_simd(a),
        is_initial_fp_simd(b),
    ensures
        a == b,
{
    assert(a.st =~= b.st);
    assert(a.xmm =~= b.xmm);
    assert(a.padding =~= b.padding);
}

impl FpSimdState {
    /// The FP/SIMD state after `fninit` with default MXCSR.
    pub fn new() -> (r: Self)
        ensures
            is_initial_fp_simd(r),
    {
        Self {
            fcw: 0x37f,
            fsw: 0,
            ftw: 0xffff,
            fop: 0,
            fip: 0,
            fdp: 0,
            mxcsr: 0x1f80,
            mxcsr_mask: 0,
            st: [0; 16],
            xmm: [0; 32],
            padding: [0; 12],
        }
    }
}

impl Default for FpSimdState {
    fn default() -> (r: Self)
        ensures
            is_initial_fp_simd(r),
    {
        Self::new()
    }
}

/// x86-64 task switch context.
#[derive(Debug, Clone, Copy)]
pub struct TaskContext {
    /// Kernel stack top used by the scheduler entry.
    kstack_top: usize,
    /// Saved stack pointer (rsp).
    rsp: usize,
    /// FS base (TLS).
    fs_base: usize,
    /// Cached user GS base.
    gs_base: usize,
    /// FP/SIMD state of the task.
    fp_simd: FpSimdState,
}

/// The registers of a task context, as plain values.
pub struct TaskContextView {
    pub kstack_top: usize,
    pub rsp: usize,
    pub fs_base: usize,
    pub gs_base: usize,
}

impl View for TaskContext {
    type V = TaskContextView;

    closed spec fn view(&self) -> TaskContextView {
        TaskContextView {
            kstack_top: self.kstack_top,
            rsp: self.rsp,
            fs_base: self.fs_base,
            gs_base: self.gs_base,
        }
    }
}

/// The frame a context switch pops when a task first runs: callee-saved
/// registers zero, return address the task entry.
#[derive(Debug, Clone, Copy, Default)]
pub struct ContextSwitchFrame {
    pub r15: usize,
    pub r14: usize,
    pub r13: usize,
    pub r12: usize,
    pub rbx: usize,
    pub rbp: usize,
    pub rip: usize,
}

/// The registers `TaskContext::new(entry, kstack_top)` gives.
pub open spec fn new_context_view(entry: usize, kstack_top: usize) -> TaskContextView {
    if kstack_top != 0 {
        TaskContextView {
            kstack_top,
            rsp: (kstack_top - CONTEXT_SWITCH_FRAME_SIZE) as usize,
            fs_base: 0,
            gs_base: 0,
        }
    } else {
        TaskContextView { kstack_top: 0, rsp: entry, fs_base: 0, gs_base: 0 }
    }
}

/// The registers after `set_sp(sp)`: a context without a stack but with an
/// entry gets its first switch frame below `sp`; any other only changes its
/// stack top.
pub open spec fn set_sp_view(v: TaskContextView, sp: usize) -> TaskContextView {
    if v.kstack_top == 0 && v.rsp != 0 {
        TaskContextView { kstack_top: sp, rsp: (sp - CONTEXT_SWITCH_FRAME_SIZE) as usize, ..v }
    } else {
        TaskContextView { kstack_top: sp, ..v }
    }
}

/// Making a context without a stack and giving it the stack later gives the
/// same registers as making it with the stack.
pub proof fn lemma_deferred_stack_matches(entry: usize, sp: usize)
    requires
        entry != 0,
        sp >= CONTEXT_SWITCH_FRAME_SIZE,
    ensures
        set_sp_view(new_context_view(entry, 0), sp) == new_context_view(entry, sp),
{
}

/// Once a context has a stack, giving it another only moves the stack top:
/// the saved stack pointer stays where the first frame was placed.
pub proof fn lemma_restack_keeps_rsp(v: TaskContextView, sp: usize)
    requires
        v.kstack_top != 0,
    ensures
        set_sp_view(v, sp).rsp == v.rsp,
        set_sp_view(v, sp).kstack_top == sp,
{
}

/// The first frame of a task starting at `entry`.
pub open spec fn first_frame(entry: usize) -> ContextSwitchFrame {
    ContextSwitchFrame { r15: 0, r14: 0, r13: 0, r12: 0, rbx: 0, rbp: 0, rip: entry }
}

impl ContextSwitchFrame {
    /// The first frame of a task starting at `entry`.
    pub fn for_entry(entry: usize) -> (r: Self)
        ensures
            r == first_frame(entry),
    {
        ContextSwitchFrame { r15: 0, r14: 0, r13: 0, r12: 0, rbx: 0, rbp: 0, rip: entry }
    }
}

impl Default for TaskContext {
    fn default() -> (r: Self)
        ensures
            r@ == (TaskContextView { kstack_top: 0, rsp: 0, fs_base: 0, gs_base: 0 }),
            r.fp_simd_is_initial(),
    {
        Self::empty()
    }
}

impl TaskContext {
    /// Whether the FP/SIMD state is the initial one.
    pub open spec fn fp_simd_is_initial(self) -> bool {
        is_initial_fp_simd(self.fp_simd_state())
    }

    /// A context that enters at `entry`. With a kernel stack top, the stack
    /// pointer is placed below a first switch frame for `entry`, which the
    /// caller writes there; without one (`kstack_top` 0) `entry` is kept in
    /// the stack pointer slot until `set_sp` gives the stack.
    pub fn new(entry: usize, kstack_top: usize) -> (r: Self)
        requires
            kstack_top == 0 || kstack_top >= CONTEXT_SWITCH_FRAME_SIZE,
        ensures
            r@ == new_context_view(entry, kstack_top),
            r.fp_simd_is_initial(),
    {
        let mut ctx = Self { kstack_top: 0, rsp: entry, fs_base: 0, gs_base: 0, fp_simd: FpSimdState::new() };
        if kstack_top != 0 {
            ctx.init_stack_frame(kstack_top);
        }
        ctx
    }

    /// An all-zero context.
    pub fn empty() -> (r: Self)
        ensures
            r@ == (TaskContextView { kstack_top: 0, rsp: 0, fs_base: 0, gs_base: 0 }),
            r.fp_simd_is_initial(),
    {
        Self { kstack_top: 0, rsp: 0, fs_base: 0, gs_base: 0, fp_simd: FpSimdState::new() }
    }

    /// Gives the context its kernel stack. A context made without a stack
    /// (stack top 0, entry in the stack pointer slot) gets its first switch
    /// frame placed below `sp`; otherwise only the stack top changes.
    pub fn set_sp(&mut self, sp: usize)
        requires
            (old(self)@.kstack_top == 0 && old(self)@.rsp != 0) ==> sp >= CONTEXT_SWITCH_FRAME_SIZE,
        ensures
            final(self)@ == set_sp_view(old(self)@, sp),
            final(self).fp_simd_is_initial() == old(self).fp_simd_is_initial(),
            final(self).fp_simd_state() == old(self).fp_simd_state(),
    {
        let entry = if self.kstack_top == 0 { self.rsp } else { 0 };
        if entry != 0 {
            self.init_stack_frame(sp);
        } else {
            self.kstack_top = sp;
        }
    }

    /// Like `new`, also returning the first switch frame to write and where:
    /// just below the stack top, where the stack pointer now points. There
    /// is none without a stack.
    pub fn new_with_frame(entry: usize, kstack_top: usize) -> (r: (Self, Option<(usize, ContextSwitchFrame)>))
        requires
            kstack_top == 0 || kstack_top >= CONTEXT_SWITCH_FRAME_SIZE,
        ensures
            r.0@ == new_context_view(entry, kstack_top),
            r.0.fp_simd_is_initial(),
            r.1 == (if kstack_top != 0 {
                Some(((kstack_top - CONTEXT_SWITCH_FRAME_SIZE) as usize, first_frame(entry)))
            } else {
                None
            }),
            r.1 matches Some(w) ==> w.0 == r.0@.rsp && w.0 + CONTEXT_SWITCH_FRAME_SIZE == r.0@.kstack_top,
    {
        let ctx = Self::new(entry, kstack_top);
        if kstack_top != 0 {
            (ctx, Some((ctx.rsp, ContextSwitchFrame::for_entry(entry))))
        } else {
            (ctx, None)
        }
    }

    /// Like `set_sp`, also returning the first switch frame to write and
    /// where, when the context gets one: for the entry that waited in the
    /// stack pointer slot, just below `sp`, where the stack pointer now
    /// points.
    pub fn set_sp_with_frame(&mut self, sp: usize) -> (r: Option<(usize, ContextSwitchFrame)>)
        requires
            (old(self)@.kstack_top == 0 && old(self)@.rsp != 0) ==> sp >= CONTEXT_SWITCH_FRAME_SIZE,
        ensures
            final(self)@ == set_sp_view(old(self)@, sp),
            final(self).fp_simd_is_initial() == old(self).fp_simd_is_initial(),
            final(self).fp_simd_state() == old(self).fp_simd_state(),
            r == (if old(self)@.kstack_top == 0 && old(self)@.rsp != 0 {
                Some(((sp - CONTEXT_SWITCH_FRAME_SIZE) as usize, first_frame(old(self)@.rsp)))
            } else {
                None
            }),
            r matches Some(w) ==> w.0 == final(self)@.rsp && w.0 + CONTEXT_SWITCH_FRAME_SIZE
                == final(self)@.kstack_top,
    {
        let entry = if self.kstack_top == 0 { self.rsp } else { 0 };
        self.set_sp(sp);
        if entry != 0 {
            Some((self.rsp, ContextSwitchFrame::for_entry(entry)))
        } else {
            None
        }
    }

    /// The FP/SIMD save area.
    pub closed spec fn fp_simd_state(self) -> FpSimdState {
        self.fp_simd
    }

    /// The FP/SIMD save area, to load into the processor.
    pub fn fp_simd(&self) -> (r: &FpSimdState)
        ensures
            *r == self.fp_simd_state(),
    {
        &self.fp_simd
    }

    /// The FP/SIMD save area, to store the processor state into; the other
    /// registers of the context stay as they are.
    pub fn fp_simd_mut(&mut self) -> (r: &mut FpSimdState)
        ensures
            *r == old(self).fp_simd_state(),
            final(self)@ == old(self)@,
            final(self).fp_simd_state() == *final(r),
    {
        &mut self.fp_simd
    }

    /// The kernel stack top.
    pub fn kstack_top(&self) -> (r: usize)
        ensures
            r == self@.kstack_top,
    {
        self.kstack_top
    }

    /// The saved stack pointer; where a first switch frame goes.
    pub fn rsp(&self) -> (r: usize)
        ensures
            r == self@.rsp,
    {
        self.rsp
    }

    /// The FS base.
    pub fn fs_base(&self) -> (r: usize)
        ensures
            r == self@.fs_base,
    {
        self.fs_base
    }

    /// The GS base.
    pub fn gs_base(&self) -> (r: usize)
        ensures
            r == self@.gs_base,
    {
        self.gs_base
    }

    /// Sets the FS base.
    pub fn set_fs_base(&mut self, fs_base: usize)
        ensures
            final(self)@ == (TaskContextView { fs_base, ..old(self)@ }),
            final(self).fp_simd_is_initial() == old(self).fp_simd_is_initial(),
            final(self).fp_simd_state() == old(self).fp_simd_state(),
    {
        self.fs_base = fs_base;
    }

    /// Sets the GS base.
    pub fn set_gs_base(&mut self, gs_base: usize)
        ensures
            final(self)@ == (TaskContextView { gs_base, ..old(self)@ }),
            final(self).fp_simd_is_initial() == old(self).fp_simd_is_initial(),
            final(self).fp_simd_state() == old(self).fp_simd_state(),
    {
        self.gs_base = gs_base;
    }

    /// Places the stack pointer below the first switch frame at `kstack_top`.
    fn init_stack_frame(&mut self, kstack_top: usize)
        requires
            kstack_top >= CONTEXT_SWITCH_FRAME_SIZE,
        ensures
            final(self)@ == (TaskContextView {
                kstack_top,
                rsp: (kstack_top - CONTEXT_SWITCH_FRAME_SIZE) as usize,
                ..old(self)@
            }),
            final(self).fp_simd == old(self).fp_simd,
    {
        self.rsp = kstack_top - CONTEXT_SWITCH_FRAME_SIZE;
        self.kstack_top = kstack_top;
    }
}

/// The life-cycle state of a task.
#[derive(Debug, Copy, Clone, PartialEq, Eq, Structural)]
pub enum TaskStatus {
    /// Ready to run.
    Ready,
    /// Running.
    Running,
    /// Waiting for an event.
    Waiting,
    /// Exited, waiting for its parent to collect it.
    Zombie,
    /// Terminated.
    Terminated,
}

impl Default for TaskStatus {
    fn default() -> (r: Self)
        ensures
            r == TaskStatus::Ready,
    {
        TaskStatus::Ready
    }
}

/// Identity, status and switch context of a task.
#[derive(Debug, Clone, Copy)]
pub struct TaskBasicInfo {
    pub tid: usize,
    pub status: TaskStatus,
    pub context: TaskContext,
}

/// A task as the scheduler knows it.
#[derive(Debug, Clone, Copy)]
pub struct TaskMeta {
    pub task_basic_info: TaskBasicInfo,
    pub scheduling_info: TaskSchedulingInfo,
}

/// What the scheduler decides by: the task, its nice value and the CPUs it
/// may run on.
#[derive(Debug, Copy, Clone, PartialEq, Eq, Structural)]
pub struct TaskSchedulingInfo {
    pub tid: usize,
    pub nice: i8,
    pub cpus_allowed: usize,
}

impl Default for TaskSchedulingInfo {
    fn default() -> (r: Self)
        ensures
            r == (TaskSchedulingInfo { tid: 0, nice: 0, cpus_allowed: 0 }),
    {
        TaskSchedulingInfo { tid: 0, nice: 0, cpus_allowed: 0 }
    }
}

impl TaskSchedulingInfo {
    /// Scheduling data of task `tid`: its nice value and allowed CPU mask.
    pub fn new(tid: usize, nice: i8, cpu_allowed: usize) -> (r: Self)
        ensures
            r == (TaskSchedulingInfo { tid, nice, cpus_allowed: cpu_allowed }),
    {
        Self { tid, nice, cpus_allowed: cpu_allowed }
    }

    /// Replaces the nice value.
    pub fn set_nice(&mut self, nice: i8)
        ensures
            *final(self) == (TaskSchedulingInfo { nice, ..*old(self) }),
    {
        self.nice = nice;
    }

    /// The nice value.
    pub fn nice(&self) -> (r: i8)
        ensures
            r == self.nice,
    {
        self.nice
    }
}

impl Default for TaskBasicInfo {
    fn default() -> (r: Self)
        ensures
            r.tid == 0,
            r.status == TaskStatus::Ready,
            r.context@ == (TaskContextView { kstack_top: 0, rsp: 0, fs_base: 0, gs_base: 0 }),
            r.context.fp_simd_is_initial(),
    {
        TaskBasicInfo { tid: 0, status: TaskStatus::Ready, context: TaskContext::empty() }
    }
}

impl Default for TaskMeta {
    fn default() -> (r: Self)
        ensures
            r.task_basic_info.tid == 0,
            r.task_basic_info.status == TaskStatus::Ready,
            r.task_basic_info.context@ == (TaskContextView { kstack_top: 0, rsp: 0, fs_base: 0, gs_base: 0 }),
            r.scheduling_info == (TaskSchedulingInfo { tid: 0, nice: 0, cpus_allowed: 0 }),
    {
        TaskMeta { task_basic_info: TaskBasicInfo::default(), scheduling_info: TaskSchedulingInfo::default() }
    }
}

impl TaskMeta {
    /// The metadata made of `basic_info` and `scheduling_info`.
    pub fn new(basic_info: TaskBasicInfo, scheduling_info: TaskSchedulingInfo) -> (r: Self)
        ensures
            r == (TaskMeta { task_basic_info: basic_info, scheduling_info }),
    {
        Self { task_basic_info: basic_info, scheduling_info }
    }

    /// The identity, status and context part.
    pub fn basic_info(&self) -> (r: TaskBasicInfo)
        ensures
            r == self.task_basic_info,
    {
        self.task_basic_info
    }

    /// The scheduling part.
    pub fn scheduling_info(&self) -> (r: TaskSchedulingInfo)
        ensures
            r == self.scheduling_info,
    {
        self.scheduling_info
    }
}

impl TaskBasicInfo {
    /// A ready task `tid` with switch context `context`.
    pub fn new(tid: usize, context: TaskContext) -> (r: Self)
        ensures
            r == (TaskBasicInfo { tid, status: TaskStatus::Ready, context }),
    {
        Self { tid, status: TaskStatus::Ready, context }
    }

    /// The task id.
    pub fn tid(&self) -> (r: usize)
        ensures
            r == self.tid,
    {
        self.tid
    }

    /// Replaces the status.
    pub fn set_status(&mut self, status: TaskStatus)
        ensures
            *final(self) == (TaskBasicInfo { status, ..*old(self) }),
    {
        self.status = status;
    }

    /// The status.
    pub fn status(&self) -> (r: TaskStatus)
        ensures
            r == self.status,
    {
        self.status
    }

    /// The switch context, for the caller to change in place.
    pub fn task_context(&mut self) -> (r: &mut TaskContext)
        ensures
            *r == old(self).context,
            *final(self) == (TaskBasicInfo { context: *final(r), ..*old(self) }),
    {
        &mut self.context
    }
}

/// A request to the task manager.
#[derive(Debug, Copy, Clone)]
pub enum TaskOperation {
    Create(TaskMeta),
    Wait,
    Wakeup(usize),
    Yield,
    Exit,
    Remove(usize),
    Current,
    GetCpusAllowed,
    ExitOver(usize),
    SetPriority(i8),
    GetPriority,
    SetUserFsBase(usize),
    GetUserFsBase,
    SetUserGsBase(usize),
    GetUserGsBase,
}

/// The answer of the task manager to a request.
#[derive(Debug, Copy, Clone, PartialEq, Eq, Structural)]
pub enum OperationResult {
    Current(Option<usize>),
    CpusAllowed(usize),
    KstackTop(usize),
    Null,
    ExitOver(bool),
    Priority(i8),
    FsBase(usize),
    GsBase(usize),
}

impl OperationResult {
    /// The current task id of a `Current` answer.
    pub fn current_tid(&self) -> (r: Option<usize>)
        requires
            self is Current,
        ensures
            r == self->Current_0,
    {
        match self {
            OperationResult::Current(tid) => *tid,
            _ => None,
        }
    }

    /// The kernel stack top of a `KstackTop` answer.
    pub fn kstack_top(&self) -> (r: usize)
        requires
            self is KstackTop,
        ensures
            r == self->KstackTop_0,
    {
        match self {
            OperationResult::KstackTop(top) => *top,
            _ => 0,
        }
    }

    /// The CPU mask of a `CpusAllowed` answer.
    pub fn cpus_allowed(&self) -> (r: usize)
        requires
            self is CpusAllowed,
        ensures
            r == self->CpusAllowed_0,
    {
        match self {
            OperationResult::CpusAllowed(cpus_allowed) => *cpus_allowed,
            _ => 0,
        }
    }

    /// Whether an `ExitOver` answer reports the exit complete.
    pub fn is_exit_over(&self) -> (r: bool)
        requires
            self is ExitOver,
        ensures
            r == self->ExitOver_0,
    {
        match self {
            OperationResult::ExitOver(is_exit) => *is_exit,
            _ => false,
        }
    }

    /// The priority of a `Priority` answer.
    pub fn priority(&self) -> (r: i8)
        requires
            self is Priority,
        ensures
            r == self->Priority_0,
    {
        match self {
            OperationResult::Priority(priority) => *priority,
            _ => 0,
        }
    }

    /// The FS base of an `FsBase` answer.
    pub fn fs_base(&self) -> (r: usize)
        requires
            self is FsBase,
        ensures
            r == self->FsBase_0,
    {
        match self {
            OperationResult::FsBase(fs_base) => *fs_base,
            _ => 0,
        }
    }

    /// The GS base of a `GsBase` answer.
    pub fn gs_base(&self) -> (r: usize)
        requires
            self is GsBase,
        ensures
            r == self->GsBase_0,
    {
        match self {
            OperationResult::GsBase(gs_base) => *gs_base,
            _ => 0,
        }
    }
}

} // verus!
