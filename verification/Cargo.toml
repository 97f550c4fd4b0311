[package]
name = "pubapi_diff"
version = "0.1.0"
edition = "2021"
publish = false

[dependencies]
argh = "*"
handlebars = "*"
miette = "*"
public-api = "*"
rustdoc-json = "*"
serde = { version = "*", features = ["derive"] }
tempfile = "*"
tracing = "*"
tracing-subscriber = "*"
