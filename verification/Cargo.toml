[package]
name = "multiplayer_game"
version = "0.1.0"
edition = "2021"
publish = false

[dependencies]
futures = "=0.3.34"
macroquad = { version = "0.4", default-features = false }
reqwest = { version = "0.11", default-features = false, features = ["blocking", "json"] }
serde = { version = "=1.0.229", features = ["derive"] }
serde_json = "=1.0.154"
tokio = { version = "=1.54.1", features = ["full"] }
tokio-tungstenite = "=0.21.0"
tungstenite = "=0.21.0"
url = "2"
warp = "=0.3.7"
