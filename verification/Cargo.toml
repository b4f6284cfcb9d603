[package]
name = "scp_transfer"
version = "0.1.0"
edition = "2021"
publish = false

[dependencies]
console = "*"
dialoguer = "*"
indicatif = "*"
ssh2 = "*"
