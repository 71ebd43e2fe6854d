[package]
name = "projsync"
version = "0.1.0"
edition = "2021"
publish = false

[dependencies]
anyhow = "1"
argh = "0.1"
camino = "1"
env_logger = "*"
log = "0.4"
untildify = "*"
wslpath = "*"
