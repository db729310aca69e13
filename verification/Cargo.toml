[package]
name = "wiremock_logical_matchers"
version = "0.1.0"
edition = "2021"

[dependencies]
wiremock = "=0.5.22"

[dev-dependencies]
http-types = { version = "=2.12.0", default-features = false }
tokio = { version = "=1.54.1", features = ["rt"] }
