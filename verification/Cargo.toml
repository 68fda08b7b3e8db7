[package]
name = "compresscli"
version = "0.1.0"
edition = "2021"
publish = false

[dependencies]
bytesize = "*"
clap = { version = "*", features = ["derive"] }
clap_complete = "*"
console = "*"
dirs = "*"
env_logger = "*"
glob = "*"
image = "*"
indicatif = "*"
log = "*"
num_cpus = "*"
serde = { version = "*", features = ["derive"] }
serde_yaml = "*"
tokio = { version = "*", features = ["full"] }
toml = "*"
walkdir = "*"
which = "*"
