[package]
name = "love"
version = "0.1.0"
edition = "2021"
publish = false

[dependencies]
regex = "1"
serde_json = "1"
toml = "0.5"
zip = { version = "0.6", default-features = false, features = ["deflate"] }
reqwest = { version = "0.11", default-features = false, features = ["blocking", "rustls-tls"] }
version-lp = "*"
platform-lp = "*"
lpsettings = "*"
download-lp = "*"
archive-lp = "*"
