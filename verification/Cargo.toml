[package]
name = "a2web"
version = "0.1.0"
edition = "2021"
publish = false

[dependencies]
automerge = "=0.7.4"
autosurgeon = "=0.10.1"
axum = { version = "=0.8.9", features = ["ws"] }
futures = "=0.3.34"
samod = { version = "=0.6.1", features = ["tokio", "tungstenite"] }
serde = { version = "=1.0.229", features = ["derive"] }
serde_json = "=1.0.154"
tao = "=0.37.2"
# Not used here: holds back the version that samod takes, which does not compile with later ones.
tokio-util = "=0.7.16"
tokio = { version = "=1.54.1", features = ["full"] }
tokio-tungstenite = "=0.27.0"
wry = "=0.57.1"
