[package]
name = "uiscript"
version = "0.1.0"
edition = "2021"
publish = false

[dependencies]
boa_engine = "=0.20.0"
serde_json = "*"
serde = { version = "*", features = ["derive"] }
quick-xml = { version = "*", features = ["serialize"] }
serde_path_to_error = "*"
gtk4 = "*"
