[package]
name = "mwa_giant_squid"
version = "1.1.0"
edition = "2021"
publish = false

[dependencies]
anyhow = "1"
backoff = "=0.4.0"
bytesize = "=1.3.3"
clap = { version = "4", features = ["derive"] }
indicatif = "0.18"
indicatif-log-bridge = "0.2"
log = "0.4"
prettytable-rs = "0.10"
rayon = "1"
reqwest = { version = "=0.11.27", default-features = false, features = ["blocking", "cookies", "rustls-tls"] }
serde = { version = "1", features = ["derive"] }
serde_json = "=1.0.154"
sha1 = "=0.10.7"
simplelog = "0.12"
tar = "0.4"
tee_readwrite = "=0.2.0"
thiserror = "1"
