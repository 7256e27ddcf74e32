//! How a virtio device is reached: an MMIO window, or a PCI function with
//! its legacy I/O window and modern capability windows.

use std::ops::Range;
use vstd::prelude::*;

verus! {

/// Where a virtio device lives and how to reach it.
#[derive(Debug)]
pub enum VirtioInitInfo {
    Mmio { range: Range<usize>, irq: Option<u32> },
    Pci {
        segment: u16,
        bus: u8,
        device: u8,
        function: u8,
        irq: Option<u32>,
        legacy_io: Option<Range<usize>>,
        modern_common: Option<Range<usize>>,
        modern_notify: Option<Range<usize>>,
        modern_notify_off_multiplier: Option<u32>,
        modern_isr: Option<Range<usize>>,
        modern_device: Option<Range<usize>>,
    },
}

/// The register window of a device: the MMIO window, or the legacy I/O
/// window of a PCI device.
pub open spec fn mmio_range_spec(info: VirtioInitInfo) -> Option<Range<usize>> {
    match info {
        VirtioInitInfo::Mmio { range, .. } => Some(range),
        VirtioInitInfo::Pci { legacy_io, .. } => legacy_io,
    }
}

/// A device with the modern PCI windows recorded; an MMIO device unchanged.
pub open spec fn with_modern_pci_spec(
    info: VirtioInitInfo,
    modern_common: Option<Range<usize>>,
    modern_notify: Option<Range<usize>>,
    modern_notify_off_multiplier: Option<u32>,
    modern_isr: Option<Range<usize>>,
    modern_device: Option<Range<usize>>,
) -> VirtioInitInfo {
    match info {
        VirtioInitInfo::Pci { segment, bus, device, function, irq, legacy_io, .. } => VirtioInitInfo::Pci {
            segment,
            bus,
            device,
            function,
            irq,
            legacy_io,
            modern_common,
            modern_notify,
            modern_notify_off_multiplier,
            modern_isr,
            modern_device,
        },
        VirtioInitInfo::Mmio { .. } => info,
    }
}

/// Recording the modern PCI windows leaves the register window as it was.
pub proof fn lemma_modern_windows_keep_register_window(
    info: VirtioInitInfo,
    modern_common: Option<Range<usize>>,
    modern_notify: Option<Range<usize>>,
    modern_notify_off_multiplier: Option<u32>,
    modern_isr: Option<Range<usize>>,
    modern_device: Option<Range<usize>>,
)
    ensures
        mmio_range_spec(with_modern_pci_spec(info, modern_common, modern_notify, modern_notify_off_multiplier, modern_isr, modern_device))
            == mmio_range_spec(info),
{
}

/// A copy of an optional range.
/// Recording the modern capability windows of a PCI device keeps its
/// address, interrupt and legacy window and records each window given for
/// its own field; an MMIO device is left as it is.
pub proof fn lemma_modern_windows_recorded(
    info: VirtioInitInfo,
    modern_common: Option<Range<usize>>,
    modern_notify: Option<Range<usize>>,
    modern_notify_off_multiplier: Option<u32>,
    modern_isr: Option<Range<usize>>,
    modern_device: Option<Range<usize>>,
)
    ensures
        ({
            let r = with_modern_pci_spec(
                info,
                modern_common,
                modern_notify,
                modern_notify_off_multiplier,
                modern_isr,
                modern_device,
            );
            &&& info is Mmio ==> r == info
            &&& info is Pci ==> {
                &&& r is Pci
                &&& r->Pci_segment == info->Pci_segment
                &&& r->Pci_bus == info->Pci_bus
                &&& r->Pci_device == info->Pci_device
                &&& r->Pci_function == info->Pci_function
                &&& r->Pci_irq == info->Pci_irq
                &&& r->Pci_legacy_io == info->Pci_legacy_io
                &&& r->modern_common == modern_common
                &&& r->modern_notify == modern_notify
                &&& r->modern_notify_off_multiplier == modern_notify_off_multiplier
                &&& r->modern_isr == modern_isr
                &&& r->modern_device == modern_device
            }
        }),
{
}

/// Recording modern windows twice keeps only the second set: the windows
/// of the first call do not show through.
pub proof fn lemma_modern_windows_last_wins(
    info: VirtioInitInfo,
    c1: Option<Range<usize>>,
    n1: Option<Range<usize>>,
    m1: Option<u32>,
    i1: Option<Range<usize>>,
    d1: Option<Range<usize>>,
    c2: Option<Range<usize>>,
    n2: Option<Range<usize>>,
    m2: Option<u32>,
    i2: Option<Range<usize>>,
    d2: Option<Range<usize>>,
)
    ensures
        with_modern_pci_spec(with_modern_pci_spec(info, c1, n1, m1, i1, d1), c2, n2, m2, i2, d2)
            == with_modern_pci_spec(info, c2, n2, m2, i2, d2),
{
}

fn copy_range(r: &Option<Range<usize>>) -> (c: Option<Range<usize>>)
    ensures
        c == *r,
{
    match r {
        Some(r) => Some(r.start..r.end),
        None => None,
    }
}

impl Clone for VirtioInitInfo {
    fn clone(&self) -> (r: Self)
        ensures
            r == *self,
    {
        match self {
            VirtioInitInfo::Mmio { range, irq } => VirtioInitInfo::Mmio { range: range.start..range.end, irq: *irq },
            VirtioInitInfo::Pci {
                segment,
                bus,
                device,
                function,
                irq,
                legacy_io,
                modern_common,
                modern_notify,
                modern_notify_off_multiplier,
                modern_isr,
                modern_device,
            } => VirtioInitInfo::Pci {
                segment: *segment,
                bus: *bus,
                device: *device,
                function: *function,
                irq: *irq,
                legacy_io: copy_range(legacy_io),
                modern_common: copy_range(modern_common),
                modern_notify: copy_range(modern_notify),
                modern_notify_off_multiplier: *modern_notify_off_multiplier,
                modern_isr: copy_range(modern_isr),
                modern_device: copy_range(modern_device),
            },
        }
    }
}

impl VirtioInitInfo {
    /// A device behind the MMIO window `range`.
    pub fn mmio(range: Range<usize>, irq: Option<u32>) -> (r: Self)
        ensures
            r == (VirtioInitInfo::Mmio { range, irq }),
    {
        Self::Mmio { range, irq }
    }

    /// A PCI device with its legacy I/O window, no modern windows yet.
    pub fn pci(
        segment: u16,
        bus: u8,
        device: u8,
        function: u8,
        irq: Option<u32>,
        legacy_io: Option<Range<usize>>,
    ) -> (r: Self)
        ensures
            r == (VirtioInitInfo::Pci {
                segment,
                bus,
                device,
                function,
                irq,
                legacy_io,
                modern_common: None,
                modern_notify: None,
                modern_notify_off_multiplier: None,
                modern_isr: None,
                modern_device: None,
            }),
    {
        Self::Pci {
            segment,
            bus,
            device,
            function,
            irq,
            legacy_io,
            modern_common: None,
            modern_notify: None,
            modern_notify_off_multiplier: None,
            modern_isr: None,
            modern_device: None,
        }
    }

    /// Records the modern PCI capability windows; an MMIO device is returned
    /// unchanged.
    pub fn with_modern_pci(
        self,
        modern_common: Option<Range<usize>>,
        modern_notify: Option<Range<usize>>,
        modern_notify_off_multiplier: Option<u32>,
        modern_isr: Option<Range<usize>>,
        modern_device: Option<Range<usize>>,
    ) -> (r: Self)
        ensures
            r == with_modern_pci_spec(
                self,
                modern_common,
                modern_notify,
                modern_notify_off_multiplier,
                modern_isr,
                modern_device,
            ),
    {
        match self {
            VirtioInitInfo::Pci { segment, bus, device, function, irq, legacy_io, .. } => VirtioInitInfo::Pci {
                segment,
                bus,
                device,
                function,
                irq,
                legacy_io,
                modern_common,
                modern_notify,
                modern_notify_off_multiplier,
                modern_isr,
                modern_device,
            },
            VirtioInitInfo::Mmio { range, irq } => VirtioInitInfo::Mmio { range, irq },
        }
    }

    /// The window the device registers are reached through: the MMIO window,
    /// or the legacy I/O window of a PCI device.
    pub fn mmio_range(&self) -> (r: Option<&Range<usize>>)
        ensures
            match r {
                Some(w) => mmio_range_spec(*self) == Some(*w),
                None => mmio_range_spec(*self) is None,
            },
    {
        match self {
            Self::Mmio { range, .. } => Some(range),
            Self::Pci { legacy_io, .. } => legacy_io.as_ref(),
        }
    }
}

} // verus!
