[package]
name = "cornix-rmk-custom"
version = "0.1.0"
edition = "2021"
publish = false

[dependencies]
embassy-nrf = { version = "=0.11.0", features = ["nrf52840", "unstable-pac"] }
embassy-time = "=0.5.1"
rmk = { version = "=0.9.0", features = ["split"] }
