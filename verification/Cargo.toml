[package]
name = "oro_arch_x86_64"
version = "0.1.0"
edition = "2021"
publish = false

[dependencies]
elf = { version = "=0.7.4", default-features = false }
x86_64 = { version = "=0.14.13", default-features = false, features = ["instructions"] }
limine = "=0.5.0"
spin = "=0.9.9"
lazy_static = { version = "=1.5.1", features = ["spin_no_std"] }
uart_16550 = "=0.3.2"
