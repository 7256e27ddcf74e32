//! Page alignment of addresses, through `memory_addr`.

use vstd::prelude::*;

verus! {

/// Size of a 4 KiB page.
pub const PAGE_SIZE_4K: usize = 4096;

/// `addr` rounded down to a multiple of 4096, as `memory_addr::align_down_4k`
/// computes it.
pub open spec fn align_down_4k_spec(addr: usize) -> usize {
    addr & !0xfffusize
}

/// `addr` rounded up to a multiple of 4096, as `memory_addr::align_up_4k`
/// computes it.
pub open spec fn align_up_4k_spec(addr: usize) -> usize {
    ((addr + 0xfffusize) as usize) & !0xfffusize
}

/// Calls `memory_addr::align_down_4k`, whose body is `addr & !(4096 - 1)`.
#[verifier::external_body]
pub fn align_down_4k(addr: usize) -> (r: usize)
    ensures
        r == align_down_4k_spec(addr),
{
    memory_addr::align_down_4k(addr)
}

/// Calls `memory_addr::align_up_4k`, whose body is
/// `(addr + 4096 - 1) & !(4096 - 1)`. Rust evaluates `addr + 4096` first,
/// which overflows (and panics with overflow checks on) above
/// `usize::MAX - 4096`; `requires` rules that out.
#[verifier::external_body]
pub fn align_up_4k(addr: usize) -> (r: usize)
    requires
        addr <= usize::MAX - 0x1000,
    ensures
        r == align_up_4k_spec(addr),
{
    memory_addr::align_up_4k(addr)
}

/// Rounding down gives the largest multiple of 4096 not above `addr`.
pub proof fn lemma_align_down_4k(addr: usize)
    ensures
        align_down_4k_spec(addr) % 4096 == 0,
        align_down_4k_spec(addr) <= addr,
        addr - align_down_4k_spec(addr) < 4096,
{
    assert((addr & !0xfffusize) % 4096 == 0 && (addr & !0xfffusize) <= addr && addr - (addr & !0xfffusize) < 4096) by (bit_vector);
}

/// Rounding up gives the smallest multiple of 4096 not below `addr`.
pub proof fn lemma_align_up_4k(addr: usize)
    requires
        addr <= usize::MAX - 0x1000,
    ensures
        align_up_4k_spec(addr) % 4096 == 0,
        addr <= align_up_4k_spec(addr),
        align_up_4k_spec(addr) - addr < 4096,
{
    assert((((addr + 0xfffusize) as usize) & !0xfffusize) % 4096 == 0
        && addr <= (((addr + 0xfffusize) as usize) & !0xfffusize)
        && (((addr + 0xfffusize) as usize) & !0xfffusize) - addr < 4096) by (bit_vector)
        requires ((addr + 0xfffusize) as usize) >= addr;
}

} // verus!
