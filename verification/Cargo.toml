[package]
name = "epifetch"
version = "0.1.0"
edition = "2021"
publish = false

[dependencies]
prettytable-rs = "0.10"
rust-crypto = "0.2"
rustc-serialize = "0.3"
serde = { version = "1", features = ["derive"] }
serde_json = "1"
reqwest = { version = "0.11", default-features = false, features = ["blocking", "json", "rustls-tls"] }
structopt = "0.3"
dirs = "5"
rpassword = "7"
