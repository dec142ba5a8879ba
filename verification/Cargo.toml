[package]
name = "axi_uartlite"
version = "0.1.0"
edition = "2021"
publish = false

[dependencies]
arbitrary-int = "*"
bitbybit = "*"
critical-section = "*"
derive-mmio = "*"
embassy-sync = "*"
embedded-hal-nb = "*"
embedded-io = "*"
embedded-io-async = "*"
nb = "*"
raw_slice = "*"
thiserror = "*"
