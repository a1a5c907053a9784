[package]
name = "rusty_board"
version = "0.1.0"
edition = "2021"
publish = false

[dependencies]
argon2 = "0.5"
askama = "0.12"
axum = "0.7"
rand_core = { version = "0.6", features = ["getrandom"] }
rusqlite = "0.31"
serde = { version = "1", features = ["derive"] }
thiserror = "1"
time = { version = "0.3", features = ["formatting", "parsing"] }
tokio = { version = "1", features = ["full"] }
tower-http = { version = "0.5", features = ["fs"] }
tracing = "0.1"
tracing-subscriber = "0.3"
uuid = { version = "1", features = ["v4"] }
