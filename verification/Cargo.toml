[package]
name = "live_scoreboard"
version = "0.1.0"
edition = "2021"
publish = false

[dependencies]
axum = "0.7"
glib = "0.20"
gtk4 = { version = "0.9", features = ["v4_10"] }
serde = { version = "1", features = ["derive"] }
serde_json = "1"
tera = "1"
tokio = { version = "1", features = ["rt-multi-thread", "net", "sync"] }
