[package]
name = "tg_captain"
version = "0.1.0"
edition = "2021"
publish = false

[dependencies]
bollard = "=0.16.1"
dptree = "=0.3.0"
httping = "=0.1.9"
log = "0.4"
mime = "=0.3.17"
pretty_env_logger = "0.5"
serde = { version = "1", features = ["derive"] }
serde_yml = "=0.0.13"
substring = "=1.4.5"
# Not called by this crate. teloxide-core depends on takecell 0.1, and the
# 0.1.2 release needs a newer compiler than the one this crate builds with,
# so the line holds the dependency tree to 0.1.1.
takecell = "=0.1.1"
teloxide = { version = "=0.12.2", features = ["macros"] }
tokio = { version = "1", features = ["rt-multi-thread", "macros", "time"] }
transmission-rpc = "=0.4.3"
