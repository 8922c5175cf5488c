[package]
name = "mdbook_docx"
version = "0.1.0"
edition = "2021"
publish = false

[dependencies]
anyhow = "1"
chrono = "0.4"
env_logger = "0.11"
glob = "0.3"
log = "0.4"
mdbook = { version = "0.4", default-features = false }
pandoc = "0.8"
serde = { version = "1", features = ["derive"] }
toml = "0.8"
