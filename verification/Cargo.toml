[package]
name = "discussion_notifier"
version = "0.1.0"
edition = "2021"
publish = false

[dependencies]
chrono = "*"
dotenv = "*"
http_req = "*"
schedule-flows = "*"
serde = { version = "*", features = ["derive"] }
serde_json = "*"
slack-flows = "*"
tokio = { version = "*", features = ["macros", "rt"] }
