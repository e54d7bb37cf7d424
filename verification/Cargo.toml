[package]
name = "filerep"
version = "0.1.0"
edition = "2021"
publish = false

[dependencies]
anyhow = "*"
blake3 = "*"
clap = { version = "*", features = ["derive"] }
inotify = "*"
memmap2 = "*"
tokio = { version = "*", features = ["full"] }
