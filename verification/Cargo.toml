[package]
name = "lapin-futures"
version = "0.1.0"
edition = "2021"
publish = false

[dependencies]
futures-core = "0.3"
lapin-async = "*"
log = "0.4"
parking_lot = "*"
