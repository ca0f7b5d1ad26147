[package]
name = "signal_link"
version = "0.1.0"
edition = "2021"
publish = false

[dependencies]
anyhow = "*"
clap = { version = "*", features = ["derive"] }
dialoguer = "*"
dirs = "=7.0.0"
image = { version = "=0.25.10", default-features = false }
indicatif = "*"
libc = "*"
open = "*"
rand = "=0.8.8"
rqrr = "=0.11.0"
rxing = "=0.8.3"
serde_json = "*"
sysinfo = "=0.39.6"
tempfile = "*"
thiserror = "*"
which = "*"

[dev-dependencies]
qrcode = "=0.14.1"
