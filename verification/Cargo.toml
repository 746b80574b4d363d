[package]
name = "project_paths"
version = "0.1.0"
edition = "2021"
publish = false

[dependencies]
path_abs = "*"
serde = { version = "*", features = ["derive"] }
serde_json = "*"
rpt = "*"

[dev-dependencies]
tempfile = "*"
