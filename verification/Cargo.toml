[package]
name = "ssh_key_setup"
version = "0.1.0"
edition = "2021"
publish = false

[dependencies]
shellexpand = "*"
