[package]
name = "vmm_core"
version = "0.1.0"
edition = "2021"
publish = false

[dependencies]
byteorder = "=1.5.0"
clap = "=2.34.0"
iced-x86 = { version = "=1.21.0", default-features = false, features = ["std", "decoder", "instr_info"] }
kvm-bindings = "0.14"
kvm-ioctls = "0.25"
vm-memory = { version = "=0.2.2", features = ["backend-mmap"] }
