[package]
name = "atmos"
version = "0.1.0"
edition = "2021"
publish = false

[dependencies]
byondapi = "=0.5.14"
once_cell = "=1.21.4"
tracing = "*"
tracing-subscriber = { version = "*", features = ["env-filter"] }
tracing-tracy = "*"
