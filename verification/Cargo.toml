[package]
name = "lpc81x_hal"
version = "0.1.0"
edition = "2021"
publish = false

[dependencies]
lpc81x-pac = { version = "=0.2.1", default-features = false, features = ["lpc812"] }
cortex-m = "=0.7.9"
embedded-hal = { version = "=0.2.7", features = ["unproven"] }
nb = "=0.1.3"
void = "=1.0.2"
