[package]
name = "dd_cloud"
version = "0.1.0"
edition = "2021"
publish = false

[dependencies]
arboard = "*"
aws-config = { version = "*", default-features = false }
aws-sdk-secretsmanager = { version = "*", default-features = false }
clap = { version = "*", features = ["derive"] }
console = "*"
dialoguer = { version = "*", features = ["fuzzy-select"] }
reqwest = { version = "*", default-features = false, features = ["json", "cookies"] }
serde = { version = "*", features = ["derive"] }
tokio = { version = "*", features = ["macros", "rt-multi-thread"] }
