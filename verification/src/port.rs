//! Ranges of x86 I/O ports and the bounds checks of accesses within them.

use std::ops::Range;
use vstd::prelude::*;

verus! {

/// A non-empty range of I/O ports a driver may access.
#[derive(Debug)]
pub struct SafePort {
    range: Range<u16>,
}

impl Clone for SafePort {
    fn clone(&self) -> (r: Self)
        ensures
            r.start() == self.start(),
            r.end() == self.end(),
    {
        proof {
            use_type_invariant(self);
        }
        SafePort { range: self.range.start..self.range.end }
    }
}

impl SafePort {
    #[verifier::type_invariant]
    spec fn inv(self) -> bool {
        self.range.start < self.range.end
    }

    /// The first port of the range.
    pub closed spec fn start(self) -> u16 {
        self.range.start
    }

    /// One past the last port of the range.
    pub closed spec fn end(self) -> u16 {
        self.range.end
    }

    /// A port range `range`, which must not be empty.
    pub fn new(range: Range<u16>) -> (r: Result<Self, ()>)
        ensures
            match r {
                Ok(p) => range.start < range.end && p.start() == range.start && p.end() == range.end,
                Err(_) => range.start >= range.end,
            },
    {
        if range.start >= range.end {
            return Err(());
        }
        Ok(Self { range })
    }

    /// A port range given with `usize` bounds: it must be non-empty and its
    /// end must be a `u16` value.
    pub fn from_usize_range(range: Range<usize>) -> (r: Result<Self, ()>)
        ensures
            match r {
                Ok(p) => range.start < range.end && range.end <= 0xffff && p.start() == range.start
                    && p.end() == range.end,
                Err(_) => !(range.start < range.end && range.end <= 0xffff),
            },
    {
        if range.start >= range.end || range.end > 0x1_0000 {
            return Err(());
        }
        if range.end > 0xffff {
            return Err(());
        }
        let start = range.start as u16;
        let end = range.end as u16;
        Self::new(start..end)
    }

    /// The number of ports.
    pub fn size(&self) -> (r: usize)
        ensures
            r == self.end() - self.start(),
            r > 0,
    {
        proof {
            use_type_invariant(self);
        }
        (self.range.end - self.range.start) as usize
    }

    /// The port range.
    pub fn port_range(&self) -> (r: Range<u16>)
        ensures
            r.start == self.start(),
            r.end == self.end(),
    {
        self.range.start..self.range.end
    }

    /// Whether `width` ports from `offset` lie within the range.
    fn check_bounds(&self, offset: usize, width: usize) -> (r: bool)
        ensures
            r == (offset + width <= self.end() - self.start()),
    {
        match offset.checked_add(width) {
            Some(end) => end <= self.size(),
            None => false,
        }
    }

    /// The port an access of `width` ports at `offset` starts at; an error
    /// when the access does not lie within the range.
    pub fn io_port(&self, offset: usize, width: usize) -> (r: Result<u16, ()>)
        ensures
            match r {
                Ok(port) => offset + width <= self.end() - self.start() && port == self.start() + offset,
                Err(_) => offset + width > self.end() - self.start(),
            },
    {
        if !self.check_bounds(offset, width) {
            return Err(());
        }
        proof {
            use_type_invariant(self);
        }
        Ok(self.range.start + offset as u16)
    }
}

} // verus!
