[package]
name = "log4rs_gelf"
version = "0.1.0"
edition = "2021"
publish = false

[dependencies]
anyhow = "*"
gelf_logger = "*"
log = "*"
log4rs = "*"
serde = "*"
serde_derive = "*"
serde-value = "*"
