[package]
name = "actix_casbin"
version = "0.1.0"
edition = "2021"
publish = false

[dependencies]
casbin = { version = "=2.20.0", default-features = false, features = ["runtime-tokio"] }
futures = "=0.3.34"
actix = "=0.13.5"

[dev-dependencies]
tokio = { version = "=1.53.2", features = ["rt-multi-thread"] }
