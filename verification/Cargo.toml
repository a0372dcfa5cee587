[package]
name = "rwcell"
version = "0.1.0"
edition = "2021"
publish = false

[dependencies]
mutability_marker = "*"
