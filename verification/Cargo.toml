[package]
name = "swindle"
version = "0.1.0"
edition = "2021"
publish = false

[dependencies]
anyhow = "1"
esp-idf-hal = "*"
esp-idf-svc = "*"
esp-idf-sys = "*"
lazy_static = "1"
libc = "0.2"
log = "0.4"
rust-sfsm = "*"
