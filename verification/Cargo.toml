[package]
name = "flow_package"
version = "0.1.0"
edition = "2021"
publish = false

[dependencies]
anyhow = "1"
handlebars = "*"
serde = { version = "1", features = ["derive"] }
serde_json = "1"
