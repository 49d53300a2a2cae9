[package]
name = "sentry_performance"
version = "0.1.0"
edition = "2021"
publish = false

[dependencies]
sentry-types = "0.38"
serde_json = "1"
