[package]
name = "tanin"
version = "0.1.0"
edition = "2021"
publish = false

[dependencies]
directories = "*"
ureq = "2"
serde = { version = "1", features = ["derive"] }
toml = "*"
anyhow = "1"
log = "*"
