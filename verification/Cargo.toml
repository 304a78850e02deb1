[package]
name = "os1"
version = "0.1.0"
edition = "2021"
publish = false

[dependencies]
serde_json = "=1.0.151"
base64 = "=0.21.7"
image = { version = "=0.24.9", default-features = false, features = ["png"] }
ringbuf = "=0.3.3"
tokio = { version = "=1.53.2", features = ["full"] }
ezsockets = "=0.7.2"
cpal = "=0.15.3"
nokhwa = "=0.10.11"
anyhow = "1"
log = "0.4"
memmap2 = "=0.9.11"
mio = { version = "=1.2.4", features = ["os-poll"] }
async-trait = "0.1"
