[package]
name = "algorithms"
version = "0.1.0"
edition = "2021"
publish = false

[dependencies]
chrono = { version = "0.4", features = ["serde"] }
parse-display = "*"
reqwest = { version = "*", default-features = false, features = ["json", "query"] }
serde = { version = "*", features = ["derive"] }
serde_json = "*"
serde_with = "*"
thiserror = "*"
tokio = { version = "*", features = ["macros", "rt-multi-thread"] }
typed-builder = "*"

[dev-dependencies]
rand = "0.8"
