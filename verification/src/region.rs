//! Device register windows. On x86-64 a window that lies in the 64 KiB I/O
//! port space is reached through port instructions; any other window is
//! memory-mapped. This module decides where an access of a window lands;
//! performing it is left to the caller.

use std::ops::Range;
use vstd::prelude::*;

verus! {

/// One past the last x86 I/O port.
pub const PORT_SPACE_END: usize = 0x1_0000;

/// Where an access of a register window lands.
#[derive(Debug, Clone, Copy, PartialEq, Eq, Structural)]
pub enum IoAccess {
    /// Through I/O ports, starting at this port.
    Port(u16),
    /// Through memory, at this physical address.
    Mmio(usize),
}

/// A window `[start, end)` of device registers, given by physical address
/// (or by port number for a port window).
#[derive(Debug)]
pub struct SafeIORegion {
    start: usize,
    end: usize,
}

impl Clone for SafeIORegion {
    fn clone(&self) -> (r: Self)
        ensures
            r.start() == self.start(),
            r.end() == self.end(),
    {
        SafeIORegion { start: self.start, end: self.end }
    }
}

impl From<Range<usize>> for SafeIORegion {
    fn from(value: Range<usize>) -> (r: Self) {
        SafeIORegion { start: value.start, end: value.end }
    }
}

impl vstd::std_specs::convert::FromSpecImpl<Range<usize>> for SafeIORegion {
    open spec fn obeys_from_spec() -> bool {
        true
    }

    open spec fn from_spec(v: Range<usize>) -> Self {
        SafeIORegion::window(v.start, v.end)
    }
}

impl SafeIORegion {
    /// The window `[start, end)`.
    pub closed spec fn window(start: usize, end: usize) -> Self {
        SafeIORegion { start, end }
    }

    /// The first address of the window.
    pub closed spec fn start(self) -> usize {
        self.start
    }

    /// One past the last address of the window.
    pub closed spec fn end(self) -> usize {
        self.end
    }

    /// The window made from `[start, end)` starts at `start` and ends at `end`.
    pub proof fn lemma_window_parts(start: usize, end: usize)
        ensures
            Self::window(start, end).start() == start,
            Self::window(start, end).end() == end,
    {
    }

    /// Whether the window is a non-empty range of I/O ports.
    pub open spec fn is_port_io_spec(self) -> bool {
        self.end() <= PORT_SPACE_END && self.start() < self.end()
    }

    /// Where an access of `width` bytes at `offset` lands: an error when it
    /// runs past the end of the window, or when a port window is accessed
    /// with a width other than 1, 2 or 4 bytes.
    pub open spec fn access_spec(self, offset: int, width: int) -> Result<IoAccess, ()> {
        if offset + width > self.end() - self.start() {
            Err(())
        } else if self.is_port_io_spec() {
            if width == 1 || width == 2 || width == 4 {
                Ok(IoAccess::Port((self.start() + offset) as u16))
            } else {
                Err(())
            }
        } else {
            Ok(IoAccess::Mmio((self.start() + offset) as usize))
        }
    }

    /// The window covering `range`.
    pub fn new(range: Range<usize>) -> (r: Self)
        ensures
            r.start() == range.start,
            r.end() == range.end,
    {
        SafeIORegion { start: range.start, end: range.end }
    }

    /// Whether the window is reached through I/O ports.
    fn is_port_io(&self) -> (r: bool)
        ensures
            r == self.is_port_io_spec(),
    {
        self.end <= PORT_SPACE_END && self.start < self.end
    }

    /// The number of bytes (or ports) in the window.
    pub fn size(&self) -> (r: usize)
        requires
            self.start() <= self.end(),
        ensures
            r == self.end() - self.start(),
    {
        self.end - self.start
    }

    /// The physical address where the window starts.
    pub fn phys_addr(&self) -> (r: usize)
        ensures
            r == self.start(),
    {
        self.start
    }

    /// The physical address range of the window.
    pub fn phys_addr_range(&self) -> (r: Range<usize>)
        ensures
            r.start == self.start(),
            r.end == self.end(),
    {
        self.start..self.end
    }

    /// The virtual address of the window: device memory is identity-mapped.
    pub fn virt_addr(&self) -> (r: usize)
        ensures
            r == self.start(),
    {
        self.start
    }

    /// Where an access of `width` bytes at `offset` lands, or an error when
    /// the window does not allow it.
    pub fn access_at(&self, offset: usize, width: usize) -> (r: Result<IoAccess, ()>)
        requires
            self.start() <= self.end(),
            offset + width <= usize::MAX,
        ensures
            r == self.access_spec(offset as int, width as int),
    {
        if offset + width > self.size() {
            return Err(());
        }
        if self.is_port_io() {
            if width == 1 || width == 2 || width == 4 {
                let port = (self.start + offset) as u16;
                return Ok(IoAccess::Port(port));
            }
            return Err(());
        }
        Ok(IoAccess::Mmio(self.start + offset))
    }
}

/// An access the window allows stays inside the window; a port access
/// names its first port exactly, inside the port space.
pub proof fn lemma_accepted_access_within_region(region: SafeIORegion, offset: usize, width: usize)
    requires
        region.start() <= region.end(),
    ensures
        match region.access_spec(offset as int, width as int) {
            Ok(IoAccess::Port(p)) => region.start() <= p && p + width <= region.end()
                && region.end() <= PORT_SPACE_END && p == region.start() + offset,
            Ok(IoAccess::Mmio(a)) => region.start() <= a && a + width <= region.end()
                && a == region.start() + offset,
            Err(_) => true,
        },
{
}

/// A port window accepts exactly the accesses of 1, 2 or 4 bytes that fit.
pub proof fn lemma_port_window_widths(region: SafeIORegion, offset: usize, width: usize)
    requires
        region.is_port_io_spec(),
    ensures
        region.access_spec(offset as int, width as int) is Ok <==> (offset + width <= region.end()
            - region.start() && (width == 1 || width == 2 || width == 4)),
{
}

} // verus!
