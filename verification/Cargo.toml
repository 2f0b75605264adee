[package]
name = "ha_agent"
version = "0.1.0"
edition = "2021"
publish = false

[dependencies]
anyhow = "1"
async-tungstenite = { version = "0.23", features = ["tokio-runtime", "tokio-native-tls"] }
dotenv = "0.15"
futures = "0.3"
inotify = "0.10"
reqwest = { version = "0.11", features = ["json"] }
serde = { version = "1", features = ["derive"] }
serde_json = "1"
structopt = "0.3"
sys-info = "0.9"
tokio = { version = "1", features = ["full"] }
tokio-native-tls = "0.3"
url = "2"
users = "0.11"

[dev-dependencies]
tempfile = "3"
