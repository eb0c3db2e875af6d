[package]
name = "hivehq"
version = "0.1.0"
edition = "2021"
publish = false

[dependencies]
clap = { version = "4", features = ["derive"] }
libc = "0.2"
parking_lot = "0.12"
chrono = "0.4"
thiserror = "2"
