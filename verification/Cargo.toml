[package]
name = "port_review"
version = "0.1.0"
edition = "2021"
publish = false

[dependencies]
clap = { version = "=4.6.7", features = ["derive"] }
env_logger = "=0.11.11"
git2 = { version = "=0.21.0", features = ["https", "ssh"] }
log = "=0.4.34"
serde = { version = "=1.0.229", features = ["derive"] }
serde_yml = "=0.0.13"
