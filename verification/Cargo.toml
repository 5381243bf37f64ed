[package]
name = "repo_privacy"
version = "0.1.0"
edition = "2021"
publish = false

[dependencies]
anyhow = "*"
console = "*"
dialoguer = "*"
dotenv = "*"
indicatif = "*"
reqwest = { version = "*", default-features = false, features = ["json"] }
rpassword = "*"
serde = { version = "*", features = ["derive"] }
serde_json = "*"
tokio = { version = "*", features = ["rt-multi-thread", "macros"] }
