[package]
name = "tweet_store"
version = "0.1.0"
edition = "2021"
publish = false

[dependencies]
rusqlite = "*"
futures-locks = "*"
futures = "*"
tokio = { version = "1", features = ["rt-multi-thread", "macros"] }
clap = { version = "4", features = ["derive"] }
log = "0.4"
thiserror = "1"
