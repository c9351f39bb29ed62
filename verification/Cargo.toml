[package]
name = "efm32pg12_hal"
version = "0.1.0"
edition = "2021"
publish = false

[dependencies]
cortex-m = "=0.6.6"
efm32pg12-pac = "=0.3.0"
embedded-hal = { version = "=0.2.7", features = ["unproven"] }
embedded-error = "=0.6.0"
nb = "=1.1.0"
