[package]
name = "jail_exporter"
version = "0.1.0"
edition = "2021"
publish = false

[dependencies]
users = "*"
log = "*"
env_logger = "*"
clap = "*"
rctl = "*"
actix-web = { version = "*", default-features = false, features = ["macros"] }
