[package]
name = "naarad_sentinel"
version = "0.1.0"
edition = "2021"
publish = false

[dependencies]
chrono = "=0.4.45"
clap = { version = "=4.6.7", features = ["derive"] }
dirs = "=5.0.1"
hyper = { version = "=0.14.32", features = ["full"] }
hyper-rustls = { version = "=0.24.2", features = ["webpki-tokio"] }
nix = { version = "=0.29.0", features = ["fs"] }
serde = { version = "=1.0.229", features = ["derive"] }
serde_json = "=1.0.154"
tokio = { version = "=1.54.1", features = ["full"] }
uname = "=0.1.1"
windows = { version = "=0.52.0", features = ["Win32_Foundation", "Win32_Storage_FileSystem"] }
