[package]
name = "trex_envelope"
version = "0.1.0"
edition = "2021"
publish = false

[dependencies]
aes-gcm = "=0.10.3"
sha2 = "=0.10.9"
parity-scale-codec = "=3.7.5"
sgx_types = "*"
tokio = { version = "1", features = ["macros", "rt-multi-thread"] }
clap = { version = "4", features = ["derive"] }
serde = { version = "1", features = ["derive"] }
serde_yaml = "0.9"
hex = { version = "0.4", features = ["serde"] }
log = "0.4"
tracing-subscriber = "0.3"
