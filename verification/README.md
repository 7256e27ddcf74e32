# alien_base

Building blocks of a domain-based x86-64 kernel, with their behaviour stated
as Verus contracts and proved.

- `src/` is the verified library: RFLAGS and privilege levels (`arch`),
  clock arithmetic (`clock`), I/O port ranges (`port`) and device register
  windows (`region`), task metadata and switch contexts (`task`), user trap
  frames (`trap`, `riscv64`), virtio and domain configuration records
  (`virtio`, `domain`, `config`), page alignment (`addr`) and the ELF domain
  loader (`loader`, with the parser calls in `elf`).
- `app/` performs what the library decides: privileged instructions,
  per-CPU state, the global clock, port and memory-mapped accesses, mapping
  domain images and writing switch frames.
- `tests/` runs the library on concrete values.

Calls into `x86_64`, `raw-cpuid`, `memory_addr` and `xmas-elf` go through
small trusted wrappers; each states in its doc comment what it assumes of
the crate it calls. The ELF parser is handed an 8-byte aligned copy of the
image (made with `bytemuck`), and only images whose tables pass the
verified layout check in `elf_layout`.
