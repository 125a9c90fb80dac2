[package]
name = "vetis_tokio"
version = "0.1.0"
edition = "2021"
publish = false

[dependencies]
vetis = "=0.1.6"
http = "=1.5.0"
hyper = { version = "=1.12.0", features = ["full"] }
hyper-util = { version = "=0.1.21", features = ["full"] }
http-body-util = "=0.1.5"
hyper-body-utils = { version = "=0.1.9", features = ["http3", "generic"] }
tokio = { version = "=1.54.1", features = ["full"] }
tokio-util = { version = "=0.7.20", features = ["full"] }
tokio-rustls = { version = "=0.26.6", default-features = false, features = ["ring", "tls12", "logging"] }
rustls = { version = "=0.23.46", default-features = false, features = ["ring", "std", "tls12", "logging"] }
futures-util = "=0.3.34"
papaya = "=0.2.5"
radix_trie = "=0.3.0"
peekable = { version = "=0.6.2", features = ["tokio"] }
quinn = "=0.11.12"
h3 = "=0.0.8"
h3-quinn = "=0.0.10"
log = "=0.4.35"
env_logger = "=0.11.11"
clap = { version = "=4.6.7", features = ["derive"] }
serde = { version = "=1.0.229", features = ["derive"] }
serde_yaml_ng = "=0.10.0"
mimalloc = "=0.1.52"
