[package]
name = "sector_penalty"
version = "0.1.0"
edition = "2021"
publish = false

[dependencies]
fvm_shared = "=3.14.2"
fvm_ipld_encoding = "=0.5.4"
num-traits = "=0.2.19"
clap = { version = "=4.6.7", features = ["derive"] }
serde = { version = "=1.0.229", features = ["derive"] }
bitflags = { version = "=2.13.2", features = ["serde"] }
lazy_static = "=1.5.1"
