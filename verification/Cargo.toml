[package]
name = "io_uring"
version = "0.1.0"
edition = "2021"
publish = false

[dependencies]
libc = "0.2"
rustix = { version = "0.38", features = ["io_uring"] }
bitflags = "2"
parking_lot = "0.12"
