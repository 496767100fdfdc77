[package]
name = "tokio_file"
version = "0.1.0"
edition = "2021"
publish = false

[dependencies]
futures = "=0.3.34"
mio-aio = { version = "=2.0.0", features = ["tokio"] }
nix = { version = "=0.31.3", features = ["aio"] }
tokio = { version = "=1.54.1", features = ["net", "rt"] }
