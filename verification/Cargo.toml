[package]
name = "chat_session"
version = "0.1.0"
edition = "2021"
publish = false

[dependencies]
dotenv = "0.15"
reqwest = { version = "0.11", features = ["json"] }
serde = { version = "1", features = ["derive"] }
termcolor = "1"
tokio = { version = "1", features = ["macros", "rt-multi-thread"] }
