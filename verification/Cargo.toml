[package]
name = "passkeeper"
version = "0.1.0"
edition = "2021"
publish = false

[dependencies]
botan = { version = "=0.14.0", features = ["dynamic-loading"] }
rocksdb = "=0.25.0"
rpassword = "=5.0.1"
clipboard = "=0.5.0"
mimalloc = "=0.1.52"
structopt = "=0.3.26"
