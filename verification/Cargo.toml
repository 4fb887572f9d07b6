[package]
name = "relwarc-api-client"
version = "0.1.0"
edition = "2021"
publish = false

[dependencies]
url = "2"
serde_json = "1"
serde = { version = "1", features = ["derive"] }
tungstenite = "*"
reqwest = { version = "*", features = ["blocking"] }
clap = "4"
