[package]
name = "mcumgr_smp"
version = "0.1.0"
edition = "2021"
publish = false

[dependencies]
base64 = "*"
crc = "3"
serde = { version = "1", features = ["derive"] }
serde_bytes = "*"
ciborium = "*"
clap = { version = "4", features = ["derive"] }
sha2 = "0.10"
serialport = { version = "4", default-features = false }
tokio = { version = "1", features = ["net", "rt", "macros", "io-util", "time"] }
thiserror = "1"
reedline = "*"
async-trait = "0.1"
