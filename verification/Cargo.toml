[package]
name = "rmskin_builder"
version = "0.1.0"
edition = "2021"
publish = false

[dependencies]
anyhow = "1"
clap = { version = "4", features = ["derive"] }
colored = "3"
image = { version = "0.25", default-features = false, features = ["bmp"] }
log = "0.4"
rust-ini = "0.21"
tempfile = "3"
thiserror = "2"
zip = { version = "*", default-features = false, features = ["deflate"] }
