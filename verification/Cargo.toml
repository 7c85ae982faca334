[package]
name = "vsss_rust_client"
version = "0.1.0"
edition = "2021"
publish = false

[dependencies]
lazy_static = "*"
multicast-socket = "*"

[dev-dependencies]
prost = "*"
