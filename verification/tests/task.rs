use alien_base::task::{
    ContextSwitchFrame, FpSimdState, OperationResult, TaskBasicInfo, TaskContext, TaskMeta,
    TaskOperation, TaskSchedulingInfo, TaskStatus, CONTEXT_SWITCH_FRAME_SIZE,
};

#[test]
fn fp_simd_initial_state() {
    let s = FpSimdState::new();
    assert_eq!(s.fcw, 0x37f);
    assert_eq!(s.ftw, 0xffff);
    assert_eq!(s.mxcsr, 0x1f80);
    assert!(s.st.iter().all(|x| *x == 0));
    assert!(s.xmm.iter().all(|x| *x == 0));
    let d = FpSimdState::default();
    assert_eq!(d.mxcsr, 0x1f80);
}

#[test]
fn context_with_stack_reserves_a_switch_frame() {
    let ctx = TaskContext::new(0x1234, 0x8000);
    assert_eq!(ctx.kstack_top(), 0x8000);
    assert_eq!(ctx.rsp(), 0x8000 - CONTEXT_SWITCH_FRAME_SIZE);
    assert_eq!(ctx.fs_base(), 0);
    assert_eq!(ctx.gs_base(), 0);
    assert_eq!(ContextSwitchFrame::for_entry(0x1234).rip, 0x1234);
}

#[test]
fn context_without_stack_keeps_entry_until_set_sp() {
    let mut ctx = TaskContext::new(0x1234, 0);
    assert_eq!(ctx.kstack_top(), 0);
    assert_eq!(ctx.rsp(), 0x1234);
    ctx.set_sp(0x9000);
    assert_eq!(ctx.kstack_top(), 0x9000);
    assert_eq!(ctx.rsp(), 0x9000 - 56);
    ctx.set_sp(0xa000);
    assert_eq!(ctx.kstack_top(), 0xa000);
    assert_eq!(ctx.rsp(), 0x9000 - 56);
}

#[test]
fn empty_context_set_sp_only_sets_stack_top() {
    let mut ctx = TaskContext::empty();
    ctx.set_sp(0x5000);
    assert_eq!(ctx.kstack_top(), 0x5000);
    assert_eq!(ctx.rsp(), 0);
    ctx.set_fs_base(0x11);
    ctx.set_gs_base(0x22);
    assert_eq!(ctx.fs_base(), 0x11);
    assert_eq!(ctx.gs_base(), 0x22);
    assert_eq!(TaskContext::default().kstack_top(), 0);
}

#[test]
fn task_info_accessors() {
    let mut info = TaskBasicInfo::new(7, TaskContext::empty());
    assert_eq!(info.tid(), 7);
    assert_eq!(info.status(), TaskStatus::Ready);
    info.set_status(TaskStatus::Zombie);
    assert_eq!(info.status(), TaskStatus::Zombie);
    info.task_context().set_fs_base(0x77);
    assert_eq!(info.context.fs_base(), 0x77);
    assert_eq!(TaskStatus::default(), TaskStatus::Ready);
    assert_eq!(TaskBasicInfo::default().tid, 0);

    let mut sched = TaskSchedulingInfo::new(7, -5, 0b11);
    assert_eq!(sched.nice(), -5);
    sched.set_nice(3);
    assert_eq!(sched.nice(), 3);
    assert_eq!(sched.cpus_allowed, 0b11);
    assert_eq!(TaskSchedulingInfo::default(), TaskSchedulingInfo::new(0, 0, 0));

    let meta = TaskMeta::new(info, sched);
    assert_eq!(meta.basic_info().tid(), 7);
    assert_eq!(meta.scheduling_info(), sched);
    assert_eq!(TaskMeta::default().basic_info().status(), TaskStatus::Ready);
    let op = TaskOperation::Create(meta);
    assert!(matches!(op, TaskOperation::Create(_)));
}

#[test]
fn operation_results() {
    assert_eq!(OperationResult::Current(Some(3)).current_tid(), Some(3));
    assert_eq!(OperationResult::Current(None).current_tid(), None);
    assert_eq!(OperationResult::KstackTop(0x100).kstack_top(), 0x100);
    assert_eq!(OperationResult::CpusAllowed(5).cpus_allowed(), 5);
    assert!(OperationResult::ExitOver(true).is_exit_over());
    assert_eq!(OperationResult::Priority(-3).priority(), -3);
    assert_eq!(OperationResult::FsBase(9).fs_base(), 9);
    assert_eq!(OperationResult::GsBase(10).gs_base(), 10);
}

#[test]
fn first_frame_written_below_stack_top() {
    let (ctx, write) = TaskContext::new_with_frame(0x8000_1234, 0x9000);
    let (at, frame) = write.expect("a context with a stack gets a frame");
    assert_eq!(at, 0x9000 - 56);
    assert_eq!(at, ctx.rsp());
    assert_eq!(frame.rip, 0x8000_1234);
    assert_eq!((frame.r15, frame.r14, frame.r13, frame.r12, frame.rbx, frame.rbp), (0, 0, 0, 0, 0, 0));
    let (bare, none) = TaskContext::new_with_frame(0x8000_1234, 0);
    assert!(none.is_none());
    assert_eq!(bare.rsp(), 0x8000_1234);
}

#[test]
fn deferred_frame_written_when_stack_arrives() {
    let (mut ctx, _) = TaskContext::new_with_frame(0x4000, 0);
    let write = ctx.set_sp_with_frame(0x2_0000);
    assert_eq!(write.map(|(at, f)| (at, f.rip)), Some((0x2_0000 - 56, 0x4000)));
    assert_eq!(ctx.kstack_top(), 0x2_0000);
    assert_eq!(ctx.rsp(), 0x2_0000 - 56);
    let again = ctx.set_sp_with_frame(0x3_0000);
    assert!(again.is_none());
    assert_eq!(ctx.kstack_top(), 0x3_0000);
    assert_eq!(ctx.rsp(), 0x2_0000 - 56);
    let mut empty = TaskContext::empty();
    assert!(empty.set_sp_with_frame(0x5000).is_none());
    assert_eq!(empty.kstack_top(), 0x5000);
    assert_eq!(empty.rsp(), 0);
}

#[test]
fn fp_simd_save_area_is_the_contexts() {
    let mut ctx = TaskContext::new(0x1000, 0x9000);
    assert_eq!(ctx.fp_simd().fcw, 0x37f);
    assert_eq!(ctx.fp_simd().mxcsr, 0x1f80);
    ctx.fp_simd_mut().mxcsr = 0x1fa0;
    ctx.fp_simd_mut().xmm[3] = 7;
    assert_eq!(ctx.fp_simd().mxcsr, 0x1fa0);
    assert_eq!(ctx.fp_simd().xmm[3], 7);
    assert_eq!(ctx.kstack_top(), 0x9000);
    assert_eq!(ctx.rsp(), 0x9000 - 56);
}
