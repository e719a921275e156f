[package]
name = "daft_launcher"
version = "0.4.0"
edition = "2021"
publish = false

[dependencies]
semver = "=1.0.28"
regex = "=1.13.1"
dirs = "=7.0.0"
anyhow = "=1.0.104"
clap = { version = "=4.6.7", features = ["derive"] }
tokio = { version = "=1.54.1", features = ["macros", "rt-multi-thread", "process", "fs", "io-util", "time"] }
serde = { version = "=1.0.229", features = ["derive"] }
toml = "=1.1.8"
serde_yaml = "=0.9.34"
comfy-table = "=8.0.1"
console = "=0.16.6"
dialoguer = "=0.12.0"
indicatif = "=0.18.6"
tempdir = "=0.3.7"
which = "=8.0.6"
open = "=5.4.5"
log = "=0.4.35"
