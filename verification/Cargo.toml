[package]
name = "call_parser"
version = "0.1.0"
edition = "2021"
publish = false

[dependencies]
base64 = "*"
dotenv = "=0.15.0"
grammers-client = "=0.10.0"
grammers-session = "=0.10.0"
reqwest = { version = "=0.11.27", default-features = false, features = ["json", "rustls-tls"] }
serde = { version = "=1.0.229", features = ["derive"] }
serde_json = "=1.0.151"
spl-token = { version = "=4.0.0", features = ["no-entrypoint"] }
tokio = { version = "=1.53.2", features = ["rt-multi-thread", "macros"] }
