use alien_base::arch::{
    calibrate_from_leaves, cpu_id_early, is_interrupt_enable, PrivilegeLevel, Rflags, TscLeaf,
};
use alien_base::rflags_bits;

#[test]
fn privilege_levels_and_cpl() {
    assert_eq!(PrivilegeLevel::from_cpl(0), PrivilegeLevel::Kernel);
    assert_eq!(PrivilegeLevel::from_cpl(3), PrivilegeLevel::User);
    assert_eq!(PrivilegeLevel::from_cpl(1), PrivilegeLevel::User);
    assert_eq!(PrivilegeLevel::from_cpl(4), PrivilegeLevel::Kernel);
    assert_eq!(PrivilegeLevel::User.as_cpl(), 3);
    assert_eq!(PrivilegeLevel::Kernel.as_cpl(), 0);
    for l in [PrivilegeLevel::User, PrivilegeLevel::Kernel] {
        assert_eq!(PrivilegeLevel::from_cpl(l.as_cpl()), l);
    }
}

#[test]
fn interrupt_flag_set_and_clear() {
    let mut f = Rflags(0xffff_0000_0000_0000);
    assert!(!f.interrupt_enabled());
    f.enable_interrupts();
    assert!(f.interrupts_enabled());
    assert_eq!(f.bits(), 0xffff_0000_0000_0200);
    f.set_interrupt_flag(false);
    assert!(!f.interrupt_enabled());
    assert_eq!(f.bits(), 0xffff_0000_0000_0000);
    f.set_interrupt_flag(true);
    f.disable_interrupts();
    assert_eq!(f.bits() & rflags_bits::IF, 0);
}

#[test]
fn iopl_field() {
    let mut f = Rflags(0x202);
    assert_eq!(f.iopl(), 0);
    f.set_iopl(3);
    assert_eq!(f.iopl(), 3);
    assert_eq!(f.bits(), 0x3202);
    f.set_iopl(6);
    assert_eq!(f.iopl(), 2);
    assert!(f.interrupt_enabled());
}

#[test]
fn stored_privilege_in_bit_63() {
    let mut f = Rflags::default();
    assert_eq!(f.privilege_level(), PrivilegeLevel::User);
    f.set_privilege_level(PrivilegeLevel::Kernel);
    assert_eq!(f.get_privilege(), PrivilegeLevel::Kernel);
    assert_eq!(f.bits(), 1u64 << 63);
    f.set_privilege(PrivilegeLevel::User);
    assert_eq!(f.bits(), 0);
    f.set_bits(0x8000_0000_0000_0246);
    assert_eq!(f.privilege_level(), PrivilegeLevel::Kernel);
    assert!(f.interrupt_enabled());
}

#[test]
fn initial_task_flags() {
    let u = Rflags::new_user();
    assert_eq!(u.bits(), 0x202);
    assert!(u.interrupt_enabled());
    assert_eq!(u.privilege_level(), PrivilegeLevel::User);
    let k = Rflags::new_kernel();
    assert_eq!(k.bits(), 0x8000_0000_0000_0202);
    assert_eq!(k.privilege_level(), PrivilegeLevel::Kernel);
}

#[test]
fn reading_rflags_in_user_mode() {
    let f = Rflags::read_current();
    assert_eq!(f.bits() & !0x3f_7fd5, 0);
    assert_eq!(f.privilege_level(), PrivilegeLevel::User);
    // user-mode processes run with interrupts enabled
    assert!(is_interrupt_enable());
    assert!(cpu_id_early() < 256);
}

#[test]
fn tsc_calibration_from_cpuid_leaves() {
    assert_eq!(calibrate_from_leaves(Some(2400), None), Some(2400));
    let leaf = TscLeaf { nominal_frequency: 25_000_000, numerator: 200, denominator: 2, tsc_frequency: Some(2_500_000_000) };
    assert_eq!(calibrate_from_leaves(Some(0), Some(leaf)), Some(2_500_000_000u64.wrapping_mul(25_000_000) / 2 / 1_000_000));
    assert_eq!(calibrate_from_leaves(None, Some(leaf)), Some(2_500_000_000u64.wrapping_mul(25_000_000) / 2 / 1_000_000));
    let no_crystal = TscLeaf { nominal_frequency: 0, numerator: 200, denominator: 2, tsc_frequency: None };
    assert_eq!(calibrate_from_leaves(None, Some(no_crystal)), None);
    let small = TscLeaf { nominal_frequency: 1000, numerator: 2, denominator: 1, tsc_frequency: Some(2000) };
    assert_eq!(calibrate_from_leaves(None, Some(small)), Some(2));
    assert_eq!(calibrate_from_leaves(None, None), None);
}

#[test]
fn vendor_strings_by_name() {
    assert_eq!(alien_base::arch::vendor_name("GenuineIntel"), "GenuineIntel");
    assert_eq!(alien_base::arch::vendor_name("AuthenticAMD"), "AuthenticAMD");
    assert_eq!(alien_base::arch::vendor_name("HygonGenuine"), "Unknown");
    assert_eq!(alien_base::arch::vendor_name("InvalidVendorString"), "Unknown");
    assert_eq!(alien_base::arch::vendor_name(""), "Unknown");
}

#[test]
fn cpu_vendor_is_a_known_name() {
    let v = alien_base::arch::cpu_vendor();
    assert!(matches!(v, None | Some("GenuineIntel") | Some("AuthenticAMD") | Some("Unknown")));
}

#[test]
fn feature_flags_default_to_absent() {
    assert!(alien_base::arch::feature_flag(Some(true)));
    assert!(!alien_base::arch::feature_flag(Some(false)));
    assert!(!alien_base::arch::feature_flag(None));
}

#[test]
fn vendor_leaf_names() {
    assert_eq!(alien_base::arch::vendor_of_leaf(Some("AuthenticAMD".to_string())), Some("AuthenticAMD"));
    assert_eq!(alien_base::arch::vendor_of_leaf(Some("GenuineIntel".to_string())), Some("GenuineIntel"));
    assert_eq!(alien_base::arch::vendor_of_leaf(Some("VIA VIA VIA ".to_string())), Some("Unknown"));
    assert_eq!(alien_base::arch::vendor_of_leaf(None), None);
}

