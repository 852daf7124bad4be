[package]
name = "kernel_core"
version = "0.1.0"
edition = "2021"
publish = false

[dependencies]
bootloader = { version = "0.9", features = ["map_physical_memory"] }
lazy_static = { version = "1", features = ["spin_no_std"] }
linked_list_allocator = { version = "0.10", default-features = false, features = ["use_spin"] }
pic8259 = { version = "0.11", default-features = false }
spin = "0.9"
volatile = "0.2"
x86_64 = { version = "0.15", default-features = false, features = ["instructions"] }
