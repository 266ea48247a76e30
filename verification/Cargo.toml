[package]
name = "zedc"
version = "0.1.0"
edition = "2021"
publish = false

[dependencies]
anyhow = "=1.0.104"
cfg-if = "=1.0.5"
clap = { version = "=4.6.7", features = ["derive"] }
clap_complete = "=4.6.11"
flate2 = "=1.1.10"
glob = "=0.3.4"
homedir = "=0.3.6"
indicatif = "=0.18.6"
octocrab = "=0.44.1"
owo-colors = "=4.4.0"
reqwest = { version = "=0.12.28", default-features = false, features = ["rustls-tls"] }
serde_json = "=1.0.154"
supports-hyperlinks = "=3.2.0"
tar = "=0.4.46"
tokio = { version = "=1.54.1", features = ["fs", "io-util", "macros", "rt-multi-thread"] }
zip = { version = "=2.6.1", default-features = false, features = ["deflate"] }
