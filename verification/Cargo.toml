[package]
name = "accounts_background_service"
version = "0.1.0"
edition = "2021"
publish = false

[dependencies]
crossbeam-channel = "0.5"
log = "0.4"
rand = "0.7"
