[package]
name = "arbitrator"
version = "0.1.0"
edition = "2021"
publish = false

[dependencies]
hex = "0.4"
sha3 = "0.10"
rand = "0.8"
rand_pcg = "0.3"
wasmer-types = "2.3"
brotli2 = "0.3"
regex = "1"
bytesize = "1"
serde = { version = "1", features = ["derive"] }
toml = "0.5"
clap = { version = "4", features = ["derive"] }
