[package]
name = "config_file"
version = "0.1.0"
edition = "2021"
publish = false

[dependencies]
serde = { version = "1", features = ["derive"] }
serde_json = "1"
serde_yml = "*"
toml = "*"
quick-xml = { version = "*", features = ["serialize"] }
ron = "*"
