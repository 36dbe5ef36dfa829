[package]
name = "memsos"
version = "0.1.0"
edition = "2021"
publish = false

[dependencies]
bit_field = "=0.10.3"
limine = "=0.5.0"
x86_64 = { version = "=0.15.5", default-features = false, features = ["instructions"] }
uefi = "=0.41.0"
embedded-graphics = "=0.8.2"
noto-sans-mono-bitmap = "=0.4.0"
lazy_static = "=1.5.1"
x2apic = "=0.5.1"
miniserde = "=0.1.46"
