[package]
name = "living_landz"
version = "0.1.0"
edition = "2021"
publish = false

[dependencies]
hexx = "0.21"
serde = { version = "1", features = ["derive"] }
bincode = "1"
noise = "0.9"
image = { version = "0.25", default-features = false, features = ["png"] }
rand = "0.9"
rayon = "1"
tokio = { version = "1", features = ["full"] }
tokio-tungstenite = "0.26"
tungstenite = "0.26"
futures = "0.3"
url = "2"
sqlx = { version = "0.8", default-features = false, features = ["runtime-tokio", "postgres"] }
dotenv = "0.15"
tracing = "0.1"
tracing-subscriber = "0.3"
bevy = { version = "0.16", default-features = false }
