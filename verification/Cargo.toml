[package]
name = "ponchik"
version = "0.1.0"
edition = "2021"
publish = false

[dependencies]
serde = { version = "1", features = ["derive"] }
serde_json = "1"
rand = "0.8"
reqwest = { version = "0.11", features = ["json"] }
tokio = { version = "1", features = ["macros", "rt-multi-thread"] }
sqlx = { version = "0.7", features = ["runtime-tokio", "postgres"] }
dotenv = "0.15"
tracing = "0.1"
tracing-subscriber = "0.3"
chrono = "0.4"
vercel_runtime = "1"
stopwatch = "0.0.7"
google-sheets4 = "5"
