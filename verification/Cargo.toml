[package]
name = "surface_scan"
version = "0.1.0"
edition = "2021"
publish = false

[dependencies]
scraper = "*"
url = "*"
tokio = { version = "*", features = ["full"] }
reqwest = { version = "*", default-features = false, features = ["rustls-tls"] }
rustls = "*"
tokio-rustls = "*"
webpki-roots = "*"
futures = "*"
indicatif = "*"
regex = "*"
anyhow = "*"
