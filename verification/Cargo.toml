[package]
name = "scaffold_core"
version = "0.1.0"
edition = "2021"
publish = false

[dependencies]
kickstart = { version = "=0.6.0", features = ["cli"] }
serde_json = "=1.0.151"
clap = { version = "=4.6.7", features = ["derive"] }
