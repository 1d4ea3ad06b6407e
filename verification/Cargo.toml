[package]
name = "sway_engines"
version = "0.1.0"
edition = "2021"
publish = false

[dependencies]
generational-arena = "0.2"
sway-types = "*"
sway-ast = "*"
sway-error = "*"
fuel-tx = "*"
clap = { version = "3", features = ["derive"] }
tower-lsp = "*"
