[package]
name = "junior"
version = "0.1.0"
edition = "2021"
publish = false

[dependencies]
anyhow = "*"
clap = "*"
confy = "*"
dirs = "*"
reqwest = { version = "*", default-features = false, features = ["json"] }
serde = { version = "*", features = ["derive"] }
serde_json = "*"
shellexpand = "*"
tokio = { version = "*", features = ["fs", "io-util", "macros", "rt-multi-thread"] }
trash = "*"
