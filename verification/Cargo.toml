[package]
name = "embedded_runner"
version = "0.1.0"
edition = "2021"
publish = false

[dependencies]
nrf52840-hal = "0.14"
nrf52840-pac = "0.10"
embedded-hal = "0.2"
cortex-m = "0.7"
littlefs2 = "0.3"
generic-array = "0.14"
asm-delay = "0.9"
