[package]
name = "ingress_sync"
version = "0.1.0"
edition = "2021"
publish = false

[dependencies]
aws-config = { version = "*", default-features = false }
config = "*"
env_logger = "*"
log = "*"
public-ip = "*"
tokio = { version = "*", features = ["macros", "rt-multi-thread"] }
