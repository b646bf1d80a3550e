[package]
name = "cattleya"
version = "0.1.0"
edition = "2021"
publish = false

[dependencies]
futures = "*"
log = "*"
once_cell = "*"
reqwest = { version = "*", default-features = false }
tokio = { version = "*", default-features = false, features = ["rt"] }

[dev-dependencies]
serde_json = "*"
