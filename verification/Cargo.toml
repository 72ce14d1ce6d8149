[package]
name = "swap_setup"
version = "0.1.0"
edition = "2021"
publish = false

[dependencies]
anyhow = "1"
bitcoin = "*"
bmrng = "*"
futures = "0.3"
libp2p = { version = "*", default-features = false }
rand = "0.8"
thiserror = "1"
tokio = { version = "1", features = ["sync", "time", "macros", "rt"] }
tracing = "0.1"
uuid = "1"
void = "1"
