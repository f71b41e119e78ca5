[package]
name = "account_service"
version = "0.1.0"
edition = "2021"
publish = false

[dependencies]
firestore = "*"
serde = { version = "*", features = ["derive"] }
tokio = { version = "*", features = ["macros", "rt-multi-thread"] }
tonic = "*"
