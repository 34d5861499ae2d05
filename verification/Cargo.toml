[package]
name = "cea708-types"
version = "0.1.0"
edition = "2021"
publish = false

[dependencies]
muldiv = "1.0"
thiserror = "1.0"
tracing = "0.1"
tracing-subscriber = { version = "0.3", features = ["env-filter"] }
once_cell = "1"
