[package]
name = "auto_deploy"
version = "0.1.0"
edition = "2021"
publish = false

[dependencies]
git2 = { version = "*", default-features = false }
serde = { version = "*", features = ["derive"] }
serde_yaml = "*"
toml = "*"
inquire = "*"
dotenvy = "*"
text-to-ascii-art = "*"
