[package]
name = "kbackup_cow"
version = "0.1.0"
edition = "2021"
publish = false

[dependencies]
env_logger = "0.11"
jni = "0.21"
log = "0.4"
nix = "0.29"
