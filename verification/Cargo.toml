[package]
name = "alien_base"
version = "0.1.0"
edition = "2021"
publish = false

[dependencies]
xmas-elf = "=0.10.0"
memory_addr = "=0.4.1"
x86_64 = { version = "=0.15.5", default-features = false, features = ["instructions"] }
x86 = "=0.52.0"
raw-cpuid = "=11.6.0"
log = "=0.4.35"
percpu = "=0.4.0"
bytemuck = { version = "1", features = ["extern_crate_alloc"] }
