[package]
name = "limits_of_ions"
version = "0.1.0"
edition = "2021"
publish = false

[dependencies]
color-eyre = "*"
comfy-table = { version = "*", default-features = false }
tracing = "*"
tracing-subscriber = { version = "*", features = ["env-filter"] }
tracing-tree = "*"
