//! x86-64 processor state: privilege levels, the RFLAGS register and the
//! machine state read through `x86_64` and `raw-cpuid`.

use vstd::prelude::*;

use crate::rflags_bits::{IF, IOPL_MASK};

verus! {

/// x86-64 privilege level (ring 0 or ring 3).
#[derive(Debug, Copy, Clone, Eq, PartialEq, Structural)]
pub enum PrivilegeLevel {
    /// Ring 3 - User mode
    User,
    /// Ring 0 - Kernel mode (Supervisor)
    Kernel,
}

/// The privilege level of a raw CPL value.
pub open spec fn privilege_of_cpl(cpl: u8) -> PrivilegeLevel {
    if cpl & 3 == 0 {
        PrivilegeLevel::Kernel
    } else {
        PrivilegeLevel::User
    }
}

/// The ring number of a privilege level.
pub open spec fn cpl_of(level: PrivilegeLevel) -> u8 {
    match level {
        PrivilegeLevel::User => 3,
        PrivilegeLevel::Kernel => 0,
    }
}

impl PrivilegeLevel {
    /// The privilege level of a raw CPL value: ring 0 is the kernel, every
    /// other ring (low two bits) is user mode.
    pub fn from_cpl(cpl: u8) -> (r: Self)
        ensures
            r == privilege_of_cpl(cpl),
    {
        if cpl & 0x3 == 0 {
            PrivilegeLevel::Kernel
        } else {
            PrivilegeLevel::User
        }
    }

    /// The raw CPL value of a privilege level.
    pub fn as_cpl(&self) -> (r: u8)
        ensures
            r == cpl_of(*self),
    {
        match self {
            PrivilegeLevel::User => 3,
            PrivilegeLevel::Kernel => 0,
        }
    }
}

/// Bit 63 of the saved RFLAGS value records the privilege level to return
/// to; RFLAGS itself does not encode the CPL.
pub const STORED_CPL_MASK: u64 = 0x8000_0000_0000_0000;

/// The RFLAGS bits `x86_64::registers::rflags::RFlags` knows of.
pub const KNOWN_RFLAGS_MASK: u64 = 0x3f_7fd5;

/// Whether the interrupt flag is set.
pub open spec fn interrupt_enabled_spec(bits: u64) -> bool {
    bits & IF != 0
}

/// The I/O privilege level field.
pub open spec fn iopl_spec(bits: u64) -> u8 {
    ((bits & IOPL_MASK) >> 12u64) as u8
}

/// The stored return privilege level.
pub open spec fn privilege_spec(bits: u64) -> PrivilegeLevel {
    if (bits >> 63u64) & 1 == 0 {
        PrivilegeLevel::User
    } else {
        PrivilegeLevel::Kernel
    }
}

/// `bits` with the interrupt flag set to `value`.
pub open spec fn with_interrupt_flag(bits: u64, value: bool) -> u64 {
    if value {
        bits | IF
    } else {
        bits & !IF
    }
}

/// `bits` with the I/O privilege level field set to the low two bits of `level`.
pub open spec fn with_iopl(bits: u64, level: u8) -> u64 {
    (bits & !IOPL_MASK) | (((level & 3) as u64) << 12u64)
}

/// `bits` with the stored privilege level set to `level`.
pub open spec fn with_privilege(bits: u64, level: PrivilegeLevel) -> u64 {
    match level {
        PrivilegeLevel::User => bits & !STORED_CPL_MASK,
        PrivilegeLevel::Kernel => bits | STORED_CPL_MASK,
    }
}

/// An x86-64 RFLAGS value, with bit 63 used to carry the privilege level a
/// trap returns to.
#[derive(Debug, Copy, Clone)]
pub struct Rflags(pub u64);

impl Default for Rflags {
    fn default() -> (r: Self)
        ensures
            r.0 == 0,
    {
        Rflags(0)
    }
}

impl Rflags {
    /// The RFLAGS of the running processor.
    pub fn read_current() -> (r: Self)
        ensures
            r.0 & !KNOWN_RFLAGS_MASK == 0,
    {
        Self::read()
    }

    /// Reads RFLAGS, dropping the bits the `x86_64` crate does not know.
    pub fn read() -> (r: Self)
        ensures
            r.0 & !KNOWN_RFLAGS_MASK == 0,
    {
        Rflags(rflags_read())
    }

    /// The raw bits.
    pub fn bits(&self) -> (r: u64)
        ensures
            r == self.0,
    {
        self.0
    }

    /// Replaces the raw bits.
    pub fn set_bits(&mut self, val: u64)
        ensures
            final(self).0 == val,
    {
        self.0 = val;
    }

    /// Whether the interrupt flag is set.
    pub fn interrupt_enabled(&self) -> (r: bool)
        ensures
            r == interrupt_enabled_spec(self.0),
    {
        (self.0 & IF) != 0
    }

    /// Whether the interrupt flag is set.
    pub fn interrupts_enabled(&self) -> (r: bool)
        ensures
            r == interrupt_enabled_spec(self.0),
    {
        self.interrupt_enabled()
    }

    /// Sets the interrupt flag.
    pub fn enable_interrupts(&mut self)
        ensures
            final(self).0 == with_interrupt_flag(old(self).0, true),
    {
        self.0 = self.0 | IF;
    }

    /// Clears the interrupt flag.
    pub fn disable_interrupts(&mut self)
        ensures
            final(self).0 == with_interrupt_flag(old(self).0, false),
    {
        self.0 = self.0 & !IF;
    }

    /// Sets or clears the interrupt flag.
    pub fn set_interrupt_flag(&mut self, value: bool)
        ensures
            final(self).0 == with_interrupt_flag(old(self).0, value),
    {
        if value {
            self.enable_interrupts();
        } else {
            self.disable_interrupts();
        }
    }

    /// The I/O privilege level (0 to 3).
    pub fn iopl(&self) -> (r: u8)
        ensures
            r == iopl_spec(self.0),
            r <= 3,
    {
        let v = self.0;
        assert(((v & 0x3000u64) >> 12u64) <= 3) by (bit_vector);
        ((self.0 & IOPL_MASK) >> 12u64) as u8
    }

    /// Sets the I/O privilege level to the low two bits of `level`.
    pub fn set_iopl(&mut self, level: u8)
        ensures
            final(self).0 == with_iopl(old(self).0, level),
    {
        self.0 = (self.0 & !IOPL_MASK) | (((level & 0x3) as u64) << 12u64);
    }

    /// The stored return privilege level.
    pub fn privilege_level(&self) -> (r: PrivilegeLevel)
        ensures
            r == privilege_spec(self.0),
    {
        if (self.0 >> 63u64) & 1 == 0 {
            PrivilegeLevel::User
        } else {
            PrivilegeLevel::Kernel
        }
    }

    /// Stores the return privilege level.
    pub fn set_privilege_level(&mut self, level: PrivilegeLevel)
        ensures
            final(self).0 == with_privilege(old(self).0, level),
    {
        match level {
            PrivilegeLevel::User => self.0 = self.0 & !STORED_CPL_MASK,
            PrivilegeLevel::Kernel => self.0 = self.0 | STORED_CPL_MASK,
        }
    }

    /// The stored return privilege level.
    pub fn get_privilege(&self) -> (r: PrivilegeLevel)
        ensures
            r == privilege_spec(self.0),
    {
        self.privilege_level()
    }

    /// Stores the return privilege level.
    pub fn set_privilege(&mut self, level: PrivilegeLevel)
        ensures
            final(self).0 == with_privilege(old(self).0, level),
    {
        self.set_privilege_level(level);
    }

    /// Initial RFLAGS of a user task: interrupts on, reserved bit 1 set,
    /// returning to user mode.
    pub fn new_user() -> (r: Self)
        ensures
            r.0 == 0x202,
    {
        let mut flags = Rflags(0x202);
        flags.set_privilege_level(PrivilegeLevel::User);
        assert(0x202u64 & !0x8000_0000_0000_0000u64 == 0x202) by (bit_vector);
        flags
    }

    /// Initial RFLAGS of a kernel task: interrupts on, reserved bit 1 set,
    /// returning to kernel mode.
    pub fn new_kernel() -> (r: Self)
        ensures
            r.0 == 0x8000_0000_0000_0202,
    {
        let mut flags = Rflags(0x202);
        flags.set_privilege_level(PrivilegeLevel::Kernel);
        assert(0x202u64 | 0x8000_0000_0000_0000u64 == 0x8000_0000_0000_0202u64) by (bit_vector);
        flags
    }
}

/// Reads RFLAGS with `x86_64::registers::rflags::read()` and returns its
/// `bits()`. That function builds the flags with `from_bits_truncate`, so
/// only the bits of `KNOWN_RFLAGS_MASK` can be set; what they are depends on
/// the processor state.
#[verifier::external_body]
fn rflags_read() -> (r: u64)
    ensures
        r & !KNOWN_RFLAGS_MASK == 0,
{
    x86_64::registers::rflags::read().bits()
}

/// Whether interrupts are enabled on the running processor.
pub fn is_interrupt_enable() -> bool {
    Rflags::read().interrupt_enabled()
}

/// External interrupts are routed by the APIC on x86-64: nothing to enable
/// here.
pub fn external_interrupt_enable() {
}

/// Software interrupts need no enabling on x86-64.
pub fn software_interrupt_enable() {
}

/// External interrupts are masked at the APIC on x86-64: nothing to disable
/// here.
pub fn external_interrupt_disable() {
}

/// The APIC timer is programmed by its own domain on x86-64: nothing to
/// enable here.
pub fn timer_interrupt_enable() {
}

/// Reads CR0 with `x86_64::registers::control::Cr0::read()` and returns its
/// `bits()`; the value depends on the processor state.
#[verifier::external_body]
pub fn read_cr0() -> usize {
    x86_64::registers::control::Cr0::read().bits() as usize
}

/// `x86_64::registers::control::Cr2::read()`: the faulting address when it is
/// canonical, `None` otherwise; the value depends on the processor state.
/// `Cr2::read` goes through `VirtAddr::try_new`, which accepts exactly the
/// canonical addresses.
#[verifier::external_body]
fn cr2_read() -> (r: Option<u64>)
    ensures
        r matches Some(a) ==> is_canonical_address(a as int),
{
    x86_64::registers::control::Cr2::read().ok().map(|addr| addr.as_u64())
}

/// Whether `a` is a canonical 48-bit x86-64 virtual address: bits 48 to 63
/// repeat bit 47.
pub open spec fn is_canonical_address(a: int) -> bool {
    (0 <= a < 0x8000_0000_0000) || (0xffff_8000_0000_0000 <= a <= u64::MAX)
}

/// The last page-fault address (CR2), or 0 when it is not canonical.
pub fn read_cr2() -> (r: usize)
    ensures
        is_canonical_address(r as int),
{
    match cr2_read() {
        Some(addr) => addr as usize,
        None => 0,
    }
}

/// Reads CR3 with `x86_64::registers::control::Cr3::read()` and returns the
/// start address of the root page table frame, which is page aligned.
#[verifier::external_body]
pub fn read_cr3() -> (r: usize)
    ensures
        r % 4096 == 0,
{
    let (frame, _) = x86_64::registers::control::Cr3::read();
    frame.start_address().as_u64() as usize
}

/// Reads CR4 with `x86_64::registers::control::Cr4::read()` and returns its
/// `bits()`; the value depends on the processor state.
#[verifier::external_body]
pub fn read_cr4() -> usize {
    x86_64::registers::control::Cr4::read().bits() as usize
}

/// `raw_cpuid::CpuId::new().get_feature_info()` and, when leaf 1 is
/// supported, its `initial_local_apic_id()`; depends on the processor.
#[verifier::external_body]
fn cpuid_initial_apic_id() -> Option<u8> {
    raw_cpuid::CpuId::new().get_feature_info().map(|info| info.initial_local_apic_id())
}

fn cpu_id_from_cpuid() -> (r: usize)
    ensures
        r < 256,
{
    match cpuid_initial_apic_id() {
        Some(id) => id as usize,
        None => 0,
    }
}

/// The id of the running CPU read from CPUID (its initial local APIC id),
/// 0 when CPUID leaf 1 is missing. Needs no per-CPU state.
pub fn cpu_id_early() -> (r: usize)
    ensures
        r < 256,
{
    cpu_id_from_cpuid()
}

/// `raw_cpuid::CpuId::new().get_feature_info()` and its `has_x2apic()`.
#[verifier::external_body]
fn cpuid_x2apic() -> Option<bool> {
    raw_cpuid::CpuId::new().get_feature_info().map(|f| f.has_x2apic())
}

/// `raw_cpuid::CpuId::new().get_extended_feature_info()` and its
/// `has_fsgsbase()`.
#[verifier::external_body]
fn cpuid_fsgsbase() -> Option<bool> {
    raw_cpuid::CpuId::new().get_extended_feature_info().map(|f| f.has_fsgsbase())
}

/// `raw_cpuid::CpuId::new().get_extended_feature_info()` and its `has_smap()`.
#[verifier::external_body]
fn cpuid_smap() -> Option<bool> {
    raw_cpuid::CpuId::new().get_extended_feature_info().map(|f| f.has_smap())
}

/// `raw_cpuid::CpuId::new().get_extended_feature_info()` and its `has_smep()`.
#[verifier::external_body]
fn cpuid_smep() -> Option<bool> {
    raw_cpuid::CpuId::new().get_extended_feature_info().map(|f| f.has_smep())
}

/// Whether a CPUID feature bit is reported set: false when its leaf is
/// missing.
pub fn feature_flag(leaf: Option<bool>) -> (r: bool)
    ensures
        r == (leaf == Some(true)),
{
    match leaf {
        Some(b) => b,
        None => false,
    }
}

/// Whether the CPU supports x2APIC; false when CPUID leaf 1 is missing.
pub fn has_x2apic() -> bool {
    feature_flag(cpuid_x2apic())
}

/// Whether the CPU supports the FSGSBASE instructions; false when the
/// extended feature leaf is missing.
pub fn has_fsgsbase() -> bool {
    feature_flag(cpuid_fsgsbase())
}

/// Whether the CPU supports SMAP; false when the extended feature leaf is
/// missing.
pub fn has_smap() -> bool {
    feature_flag(cpuid_smap())
}

/// Whether the CPU supports SMEP; false when the extended feature leaf is
/// missing.
pub fn has_smep() -> bool {
    feature_flag(cpuid_smep())
}

/// `raw_cpuid::CpuId::new().get_vendor_info()` and, when the vendor leaf is
/// supported, its `as_str()` copied into a `String`; depends on the processor.
#[verifier::external_body]
fn cpuid_vendor_string() -> Option<String> {
    match raw_cpuid::CpuId::new().get_vendor_info() {
        Some(v) => Some(v.as_str().to_string()),
        None => None,
    }
}

/// The name a CPUID vendor string is reported under: one of the two known
/// vendors, or `Unknown`.
pub open spec fn vendor_name_spec(vendor: Seq<char>) -> Seq<char> {
    if vendor == "GenuineIntel"@ {
        "GenuineIntel"@
    } else if vendor == "AuthenticAMD"@ {
        "AuthenticAMD"@
    } else {
        "Unknown"@
    }
}

/// The name `vendor` is reported under.
pub fn vendor_name(vendor: &str) -> (r: &'static str)
    ensures
        r@ == vendor_name_spec(vendor@),
{
    let v = vendor.to_owned();
    if v == "GenuineIntel".to_owned() {
        "GenuineIntel"
    } else if v == "AuthenticAMD".to_owned() {
        "AuthenticAMD"
    } else {
        "Unknown"
    }
}

/// The name a CPUID vendor leaf is reported under, `None` without the leaf.
pub fn vendor_of_leaf(leaf: Option<String>) -> (r: Option<&'static str>)
    ensures
        match leaf {
            Some(v) => r matches Some(name) && name@ == vendor_name_spec(v@),
            None => r is None,
        },
{
    match leaf {
        Some(v) => Some(vendor_name(v.as_str())),
        None => None,
    }
}

/// The CPU vendor by name, `None` when CPUID has no vendor leaf.
pub fn cpu_vendor() -> (r: Option<&'static str>)
    ensures
        r matches Some(name) ==> (name@ == "GenuineIntel"@ || name@ == "AuthenticAMD"@
            || name@ == "Unknown"@),
{
    vendor_of_leaf(cpuid_vendor_string())
}

/// What CPUID leaf 0x15 reports of the time-stamp counter.
#[derive(Clone, Copy, Debug)]
pub struct TscLeaf {
    /// Nominal frequency of the core crystal clock in Hz (0 if not enumerated).
    pub nominal_frequency: u32,
    /// Numerator of the TSC / crystal clock ratio.
    pub numerator: u32,
    /// Denominator of the TSC / crystal clock ratio.
    pub denominator: u32,
    /// `TscInfo::tsc_frequency()`.
    pub tsc_frequency: Option<u64>,
}

/// What `TscInfo::tsc_frequency` computes from the other three values.
pub open spec fn tsc_frequency_spec(nominal: u32, numerator: u32, denominator: u32) -> Option<u64> {
    if nominal == 0 || numerator == 0 || denominator == 0 {
        None
    } else {
        Some(((nominal as int * numerator as int) / denominator as int) as u64)
    }
}

/// `raw_cpuid::CpuId::new().get_tsc_info()`; when leaf 0x15 is supported,
/// its nominal frequency, ratio and `tsc_frequency()`, which by its source
/// is the nominal frequency times the ratio, `None` when any of the three
/// is zero. What the leaf holds depends on the processor.
#[verifier::external_body]
fn cpuid_tsc_leaf() -> (r: Option<TscLeaf>)
    ensures
        match r {
            Some(t) => t.tsc_frequency == tsc_frequency_spec(t.nominal_frequency, t.numerator, t.denominator),
            None => true,
        },
{
    raw_cpuid::CpuId::new().get_tsc_info().map(|t| TscLeaf {
        nominal_frequency: t.nominal_frequency(), numerator: t.numerator(),
        denominator: t.denominator(), tsc_frequency: t.tsc_frequency(),
    })
}

/// `raw_cpuid::CpuId::new().get_processor_frequency_info()` and, when leaf
/// 0x16 is supported, its `processor_base_frequency()` in MHz.
#[verifier::external_body]
fn cpuid_base_frequency_mhz() -> Option<u16> {
    raw_cpuid::CpuId::new().get_processor_frequency_info().map(|f| f.processor_base_frequency())
}

/// The TSC frequency in MHz that CPUID leaves report: the processor base
/// frequency (leaf 0x16) when it is not 0; otherwise, from leaf 0x15, the
/// product of `tsc_frequency()` and the crystal frequency over the ratio
/// denominator, in MHz, when all of them are positive. The product wraps at
/// 64 bits.
pub open spec fn calibrated_mhz_spec(base_mhz: Option<u16>, tsc: Option<TscLeaf>) -> Option<u64> {
    if base_mhz is Some && base_mhz->0 > 0 {
        Some(base_mhz->0 as u64)
    } else {
        match tsc {
            Some(t) => {
                let numerator: u64 = match t.tsc_frequency {
                    Some(f) => f,
                    None => 0,
                };
                if t.nominal_frequency > 0 && numerator > 0 && t.denominator > 0 {
                    Some(((numerator.wrapping_mul(t.nominal_frequency as u64)) / t.denominator as u64) / 1_000_000)
                } else {
                    None
                }
            },
            None => None,
        }
    }
}

/// Decides the TSC frequency in MHz from the CPUID leaves, as
/// `calibrated_mhz_spec` states.
pub fn calibrate_from_leaves(base_mhz: Option<u16>, tsc: Option<TscLeaf>) -> (r: Option<u64>)
    ensures
        r == calibrated_mhz_spec(base_mhz, tsc),
        r is Some ==> r->0 <= u64::MAX / 1_000_000,
{
    if let Some(base_freq) = base_mhz {
        if base_freq > 0 {
            return Some(base_freq as u64);
        }
    }
    if let Some(tsc_info) = tsc {
        let crystal_freq = tsc_info.nominal_frequency;
        if crystal_freq > 0 {
            let numerator = match tsc_info.tsc_frequency {
                Some(f) => f,
                None => 0,
            };
            let denominator = tsc_info.denominator;
            if numerator > 0 && denominator > 0 {
                let freq_hz = numerator.wrapping_mul(crystal_freq as u64) / (denominator as u64);
                return Some(freq_hz / 1_000_000);
            }
        }
    }
    None
}

/// The TSC frequency in MHz that CPUID reports, if it reports one.
pub fn calibrate_tsc_freq_cpuid() -> (r: Option<u64>)
    ensures
        r is Some ==> r->0 <= u64::MAX / 1_000_000,
{
    calibrate_from_leaves(cpuid_base_frequency_mhz(), cpuid_tsc_leaf())
}

/// A privilege level survives the trip through its CPL value.
pub proof fn lemma_cpl_roundtrip(level: PrivilegeLevel)
    ensures
        privilege_of_cpl(cpl_of(level)) == level,
{
    assert(3u8 & 3 == 3 && 0u8 & 3 == 0) by (bit_vector);
}

/// Setting or clearing the interrupt flag reads back as set or clear, and
/// changes no other bit: the I/O privilege level and the stored privilege
/// level stay as they were.
pub proof fn lemma_interrupt_flag_update(bits: u64, value: bool)
    ensures
        interrupt_enabled_spec(with_interrupt_flag(bits, value)) == value,
        with_interrupt_flag(bits, value) & !IF == bits & !IF,
        iopl_spec(with_interrupt_flag(bits, value)) == iopl_spec(bits),
        privilege_spec(with_interrupt_flag(bits, value)) == privilege_spec(bits),
{
    assert((bits | 0x200u64) & 0x200u64 != 0 && (bits & !0x200u64) & 0x200u64 == 0) by (bit_vector);
    assert((bits | 0x200u64) & !0x200u64 == bits & !0x200u64 && (bits & !0x200u64) & !0x200u64 == bits & !0x200u64) by (bit_vector);
    assert(((bits | 0x200u64) & 0x3000u64) == bits & 0x3000u64 && ((bits & !0x200u64) & 0x3000u64) == bits & 0x3000u64) by (bit_vector);
    assert((((bits | 0x200u64) >> 63u64) & 1) == ((bits >> 63u64) & 1) && (((bits & !0x200u64) >> 63u64) & 1) == ((bits >> 63u64) & 1)) by (bit_vector);
}

/// Setting the I/O privilege level reads back the low two bits of the level
/// given, and changes no bit outside the field: the interrupt flag and the
/// stored privilege level stay as they were.
pub proof fn lemma_iopl_update(bits: u64, level: u8)
    ensures
        iopl_spec(with_iopl(bits, level)) == level & 3,
        with_iopl(bits, level) & !IOPL_MASK == bits & !IOPL_MASK,
        interrupt_enabled_spec(with_iopl(bits, level)) == interrupt_enabled_spec(bits),
        privilege_spec(with_iopl(bits, level)) == privilege_spec(bits),
{
    let l: u64 = (level & 3) as u64;
    assert(l <= 3) by (bit_vector)
        requires l == (level & 3) as u64;
    let n: u64 = (bits & !0x3000u64) | (l << 12u64);
    assert(((n & 0x3000u64) >> 12u64) == l) by (bit_vector)
        requires n == (bits & !0x3000u64) | (l << 12u64), l <= 3;
    assert((n & !0x3000u64) == bits & !0x3000u64) by (bit_vector)
        requires n == (bits & !0x3000u64) | (l << 12u64), l <= 3;
    assert((n & 0x200u64) == bits & 0x200u64) by (bit_vector)
        requires n == (bits & !0x3000u64) | (l << 12u64), l <= 3;
    assert(((n >> 63u64) & 1) == ((bits >> 63u64) & 1)) by (bit_vector)
        requires n == (bits & !0x3000u64) | (l << 12u64), l <= 3;
    assert(l as u8 == level & 3) by (bit_vector)
        requires l == (level & 3) as u64;
}

/// Storing a privilege level reads it back, and changes no other bit: the
/// interrupt flag and the I/O privilege level stay as they were.
pub proof fn lemma_privilege_update(bits: u64, level: PrivilegeLevel)
    ensures
        privilege_spec(with_privilege(bits, level)) == level,
        with_privilege(bits, level) & !STORED_CPL_MASK == bits & !STORED_CPL_MASK,
        interrupt_enabled_spec(with_privilege(bits, level)) == interrupt_enabled_spec(bits),
        iopl_spec(with_privilege(bits, level)) == iopl_spec(bits),
{
    let u = bits & !0x8000_0000_0000_0000u64;
    let k = bits | 0x8000_0000_0000_0000u64;
    assert(((u >> 63u64) & 1) == 0 && ((k >> 63u64) & 1) == 1) by (bit_vector)
        requires u == bits & !0x8000_0000_0000_0000u64, k == bits | 0x8000_0000_0000_0000u64;
    assert(u & !0x8000_0000_0000_0000u64 == bits & !0x8000_0000_0000_0000u64
        && k & !0x8000_0000_0000_0000u64 == bits & !0x8000_0000_0000_0000u64) by (bit_vector)
        requires u == bits & !0x8000_0000_0000_0000u64, k == bits | 0x8000_0000_0000_0000u64;
    assert(u & 0x200u64 == bits & 0x200u64 && k & 0x200u64 == bits & 0x200u64) by (bit_vector)
        requires u == bits & !0x8000_0000_0000_0000u64, k == bits | 0x8000_0000_0000_0000u64;
    assert(u & 0x3000u64 == bits & 0x3000u64 && k & 0x3000u64 == bits & 0x3000u64) by (bit_vector)
        requires u == bits & !0x8000_0000_0000_0000u64, k == bits | 0x8000_0000_0000_0000u64;
}

/// RFLAGS as read from the processor never carries a stored kernel
/// privilege: bit 63 is not among the bits the register reports.
pub proof fn lemma_read_flags_are_user(bits: u64)
    requires
        bits & !KNOWN_RFLAGS_MASK == 0,
    ensures
        privilege_spec(bits) == PrivilegeLevel::User,
{
    assert((bits >> 63u64) & 1 == 0) by (bit_vector)
        requires bits & !0x3f_7fd5u64 == 0;
}

} // verus!
