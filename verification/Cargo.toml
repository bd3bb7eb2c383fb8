[package]
name = "tcp_file_copy"
version = "0.1.0"
edition = "2021"
publish = false

[dependencies]
flate2 = "=1.1.10"
crc-fast = "=1.10.0"
wincode = { version = "=0.6.2", features = ["derive"] }
