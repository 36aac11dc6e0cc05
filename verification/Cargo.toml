[package]
name = "woodstove_lib"
version = "0.1.0"
edition = "2021"
publish = false

[dependencies]
anyhow = "1"
embedded-hal = "*"
esp-idf-svc = "*"
log = "0.4"
max31855 = "*"
