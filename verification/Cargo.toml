[package]
name = "minidb"
version = "0.1.0"
edition = "2021"
publish = false

[dependencies]
anyhow = "=1.0.104"
argon2 = "=0.5.3"
bitcode = { version = "=0.6.9", features = ["serde"] }
cuid2 = "=0.1.6"
heck = "=0.5.0"
proc-macro-crate = "=3.5.0"
proc-macro2 = "=1.0.107"
quote = "=1.0.47"
rand = "=0.9.5"
rayon = "=1.12.0"
serde = { version = "=1.0.229", features = ["derive"] }
syn = "=2.0.119"
tempfile = "=3.27.0"
thiserror = "=2.0.21"
tokio = { version = "1", features = ["fs", "io-util"] }
