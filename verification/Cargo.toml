[package]
name = "ggoldca"
version = "0.1.0"
edition = "2021"
publish = false

[dependencies]
orca_whirlpools_core = "*"
