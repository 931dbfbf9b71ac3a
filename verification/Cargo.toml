[package]
name = "nova_gfx"
version = "0.1.0"
edition = "2021"
publish = false

[dependencies]
gfx-hal = "0.2"
smallvec = "0.6"
crossbeam-channel = "0.3"
crossbeam-utils = "0.6"
parking_lot = "0.7"
