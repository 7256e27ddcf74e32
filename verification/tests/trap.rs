use alien_base::riscv64;
use alien_base::trap::{TrapFrame, RSP0_TOP_SIZE};

#[test]
fn new_user_frame() {
    let f = TrapFrame::new_user(0x1000, 0x7fff_0000, 0xffff_8000_0001_0000, 0xabc000);
    assert_eq!(f.rip, 0x1000);
    assert_eq!(f.rsp, 0x7fff_0000);
    assert_eq!(f.cs, 0x33);
    assert_eq!(f.ss, 0x2b);
    assert_eq!(f.rflags_val, 0x202);
    assert_eq!(f.rax, 0);
    assert_eq!(f.kernel_sp(), 0xffff_8000_0001_0000);
    assert_eq!(f.kernel_page_table_token(), 0xabc000);
    assert_eq!(std::mem::size_of::<TrapFrame>(), RSP0_TOP_SIZE);
}

#[test]
fn frame_updates_and_parameters() {
    let mut f = TrapFrame::new_user(0, 0, 0, 0);
    f.rax = 60;
    f.rdi = 1;
    f.rsi = 2;
    f.rdx = 3;
    f.r10 = 4;
    f.r8 = 5;
    f.r9 = 6;
    assert_eq!(f.parameters(), [60, 1, 2, 3, 4, 5, 6]);
    f.update_result(99);
    assert_eq!(f.rax, 99);
    f.update_user_sp(0x55);
    assert_eq!(f.rsp, 0x55);
    f.update_user_pc(0x66);
    assert_eq!(f.user_pc(), 0x66);
    f.update_k_sp(0x77);
    assert_eq!(f.kernel_sp(), 0x77);
    let before = f;
    f.update_tls(0x88);
    assert_eq!(f.rsp, before.rsp);
    assert_eq!(f.rax, before.rax);
}

#[test]
fn riscv_frame_and_context() {
    let mut f = riscv64::TrapFrame { x: [0; 32], sepc: 0, k_satp: 0, k_sp: 0, trap_handler: 0, kernel_percpu: 0, sstatus: 0, fg: [0; 2] };
    for i in 0..32 {
        f.x[i] = i;
    }
    assert_eq!(f.parameters(), [17, 10, 11, 12, 13, 14, 15]);
    f.update_result(7);
    assert_eq!(f.x[10], 7);
    f.update_user_sp(8);
    assert_eq!(f.x[2], 8);
    f.update_tls(9);
    assert_eq!(f.x[4], 9);
    f.update_user_pc(0x100);
    assert_eq!(f.user_pc(), 0x100);
    f.update_k_sp(0x200);
    assert_eq!(f.k_sp, 0x200);

    let mut c = riscv64::TaskContext::new(0x10, 0x20);
    assert_eq!((c.ra, c.sp), (0x10, 0x20));
    c.set_sp(0x30);
    assert_eq!(c.sp, 0x30);
    let e = riscv64::TaskContext::empty();
    assert_eq!((e.ra, e.sp, e.s), (0, 0, [0; 12]));
}
