[package]
name = "ade_extract_key"
version = "0.1.0"
edition = "2021"
publish = false

[dependencies]
anyhow = "1"
base64 = "0.22"
byteorder = "1"
clap = { version = "4", features = ["derive"] }
flexi_logger = "*"
libaes = "*"
log = "0.4"
regex = "1"
sysinfo = "*"
thiserror = "*"
winapi = { version = "0.3", features = ["dpapi", "wincrypt"] }
