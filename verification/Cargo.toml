[package]
name = "aurora_kernel"
version = "0.1.0"
edition = "2021"
publish = false

[dependencies]
x86_64 = { version = "=0.15.5", default-features = false, features = ["instructions"] }
object = { version = "=0.36.7", default-features = false, features = ["read_core", "elf", "unaligned"] }
crossbeam-queue = "=0.3.14"
bootloader_api = "=0.11.17"
spin = "=0.9.9"
lazy_static = "=1.5.1"
conquer-once = { version = "=0.4.0", default-features = false }
futures-util = { version = "=0.3.34", default-features = false, features = ["alloc"] }
pc-keyboard = "=0.7.0"
acpi = "=4.1.1"
x2apic = "=0.5.1"
embedded-graphics = "=0.8.2"
font8x8 = { version = "=0.3.1", default-features = false, features = ["unicode"] }
simple-fatfs = "=0.1.0-alpha.1"
