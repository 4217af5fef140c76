[package]
name = "xtask_scaffold"
version = "0.1.0"
edition = "2021"
publish = false

[dependencies]
anyhow = "=1.0.104"
clap = { version = "=4.6.7", features = ["derive", "env"] }
self_update = "=1.3.3"
tar = "=0.4.46"
xz2 = "=0.1.7"
