use alien_base::domain::{IoAPICHooks, Level, LevelFilter, LocalAPICHooks, PlicInfo, PlicType, TmpHeapInfo};
use alien_base::virtio::VirtioInitInfo;

#[test]
fn virtio_mmio_window() {
    let info = VirtioInitInfo::mmio(0x1000_1000..0x1000_2000, Some(1));
    assert_eq!(info.mmio_range(), Some(&(0x1000_1000..0x1000_2000)));
    let same = info.clone().with_modern_pci(Some(0..1), None, Some(4), None, None);
    assert_eq!(same.mmio_range(), Some(&(0x1000_1000..0x1000_2000)));
    assert!(matches!(same, VirtioInitInfo::Mmio { irq: Some(1), .. }));
}

#[test]
fn virtio_pci_windows() {
    let info = VirtioInitInfo::pci(0, 0, 3, 0, Some(11), Some(0xc000..0xc040));
    assert_eq!(info.mmio_range(), Some(&(0xc000..0xc040)));
    let modern = info.with_modern_pci(Some(0x1000..0x1038), Some(0x2000..0x2100), Some(4), Some(0x3000..0x3001), None);
    match &modern {
        VirtioInitInfo::Pci { device, modern_common, modern_notify_off_multiplier, modern_device, legacy_io, .. } => {
            assert_eq!(*device, 3);
            assert_eq!(modern_common, &Some(0x1000..0x1038));
            assert_eq!(*modern_notify_off_multiplier, Some(4));
            assert_eq!(modern_device, &None);
            assert_eq!(legacy_io, &Some(0xc000..0xc040));
        }
        _ => panic!("not pci"),
    }
    let no_legacy = VirtioInitInfo::pci(0, 1, 2, 3, None, None);
    assert_eq!(no_legacy.mmio_range(), None);
}

#[test]
fn log_levels_encode_like_filters() {
    assert_eq!(Level::Error.value(), 1);
    assert_eq!(Level::Trace.value(), 5);
    assert_eq!(LevelFilter::Off.value(), 0);
    assert_eq!(LevelFilter::Warn.value(), Level::Warn.value());
    assert!(Level::Error < Level::Warn);
    assert!(LevelFilter::Off < LevelFilter::Error);
}

#[test]
fn plain_domain_data() {
    let p = PlicInfo { device_info: 0xc00_0000..0x1000_0000, ty: PlicType::Qemu };
    let q = p.clone();
    assert_eq!(q.device_info, 0xc00_0000..0x1000_0000);
    assert_eq!(q.ty, PlicType::Qemu);
    let h = TmpHeapInfo::default();
    assert_eq!((h.start, h.current), (0, 0));
    assert_eq!(IoAPICHooks { ioapic_base: 0xfec0_0000 }.ioapic_base, 0xfec0_0000);
    assert_eq!(LocalAPICHooks { xapic_base: 0xfee0_0000 }.xapic_base, 0xfee0_0000);
}
