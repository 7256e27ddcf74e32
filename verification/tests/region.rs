use alien_base::region::{IoAccess, SafeIORegion};

#[test]
fn port_window_accesses() {
    let uart = SafeIORegion::from(0x3f8..0x400);
    assert_eq!(uart.size(), 8);
    assert_eq!(uart.phys_addr(), 0x3f8);
    assert_eq!(uart.access_at(0, 1), Ok(IoAccess::Port(0x3f8)));
    assert_eq!(uart.access_at(5, 1), Ok(IoAccess::Port(0x3fd)));
    assert_eq!(uart.access_at(6, 2), Ok(IoAccess::Port(0x3fe)));
    assert_eq!(uart.access_at(4, 4), Ok(IoAccess::Port(0x3fc)));
}

#[test]
fn port_window_rejects_out_of_bounds() {
    let uart = SafeIORegion::from(0x3f8..0x400);
    assert_eq!(uart.access_at(8, 1), Err(()));
    assert_eq!(uart.access_at(7, 2), Err(()));
    assert_eq!(uart.access_at(5, 4), Err(()));
}

#[test]
fn port_window_rejects_odd_widths() {
    let uart = SafeIORegion::from(0x3f8..0x400);
    assert_eq!(uart.access_at(0, 8), Err(()));
    assert_eq!(uart.access_at(0, 3), Err(()));
    assert_eq!(uart.access_at(0, 0), Err(()));
}

#[test]
fn window_ending_at_port_space_end_is_ports() {
    let top = SafeIORegion::from(0xfff0..0x1_0000);
    assert_eq!(top.access_at(0xc, 4), Ok(IoAccess::Port(0xfffc)));
}

#[test]
fn memory_window_accesses() {
    let mmio = SafeIORegion::new(0xfec0_0000..0xfec0_1000);
    assert_eq!(mmio.size(), 0x1000);
    assert_eq!(mmio.access_at(0x10, 4), Ok(IoAccess::Mmio(0xfec0_0010)));
    assert_eq!(mmio.access_at(0xff8, 8), Ok(IoAccess::Mmio(0xfec0_0ff8)));
    assert_eq!(mmio.access_at(0, 3), Ok(IoAccess::Mmio(0xfec0_0000)));
    assert_eq!(mmio.access_at(0xffc, 8), Err(()));
    assert_eq!(mmio.virt_addr(), 0xfec0_0000);
    assert_eq!(mmio.phys_addr_range(), 0xfec0_0000..0xfec0_1000);
}

#[test]
fn window_crossing_port_space_end_is_memory() {
    let w = SafeIORegion::from(0xfff0..0x1_0010);
    assert_eq!(w.access_at(0, 8), Ok(IoAccess::Mmio(0xfff0)));
}

#[test]
fn empty_window_rejects_everything_but_empty_accesses() {
    let w = SafeIORegion::from(0x100..0x100);
    assert_eq!(w.size(), 0);
    assert_eq!(w.access_at(0, 1), Err(()));
    assert_eq!(w.access_at(0, 0), Ok(IoAccess::Mmio(0x100)));
}

#[test]
fn cloned_window_is_the_same_window() {
    let w = SafeIORegion::from(0x60..0x65);
    let c = w.clone();
    assert_eq!(c.phys_addr_range(), 0x60..0x65);
    assert_eq!(c.access_at(4, 1), Ok(IoAccess::Port(0x64)));
}
