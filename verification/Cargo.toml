[package]
name = "efm32hg222f64-hal"
version = "0.1.0"
edition = "2021"
publish = false

[dependencies]
cast = { version = "=0.3.0", default-features = false }
cortex-m = "=0.7.10"
efm32hg222f64 = "=0.2.0"
embedded-hal = { version = "=0.2.7", features = ["unproven"] }
emlib = "=0.0.1"
