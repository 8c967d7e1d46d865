[package]
name = "generic_singleton"
version = "0.1.0"
edition = "2021"
publish = false

[dependencies]
anymap = "*"
anymap3 = "*"
parking_lot = "*"
lazy_static = "*"
