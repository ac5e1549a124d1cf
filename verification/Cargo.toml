[package]
name = "raxupf"
version = "0.1.0"
edition = "2021"
publish = false

[dependencies]
rs-pfcp = "=0.5.0"
aya = "=0.13.1"
tokio = { version = "=1.54.1", features = ["net", "sync", "rt", "macros"] }
anyhow = "=1.0.104"
log = "=0.4.35"
serde = { version = "=1.0.229", features = ["derive"] }
serde-aux = "=4.7.0"
config = { version = "=0.15.27", default-features = false, features = ["toml", "yaml"] }
