[package]
name = "hacore"
version = "0.1.0"
edition = "2021"
publish = false

[dependencies]
rtrb = "=0.3.6"
nnnoiseless = "=0.5.2"
ringbuf = "=0.4.8"
biquad = "*"
fdaf-aec = "*"
anyhow = "1"
clap = { version = "4", features = ["derive"] }
tokio = { version = "1", features = ["full"] }
