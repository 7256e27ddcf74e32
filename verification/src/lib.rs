//! Verified building blocks of a domain-based kernel: processor status bits,
//! clock arithmetic, port ranges, task metadata, trap frames and the ELF
//! domain loader.

use vstd::prelude::*;

pub mod addr;
pub mod arch;
pub mod clock;
pub mod config;
pub mod domain;
pub mod elf;
pub mod elf_layout;
pub mod loader;
pub mod port;
pub mod region;
pub mod rflags_bits;
pub mod riscv64;
pub mod task;
pub mod trap;
pub mod virtio;
