[package]
name = "routerify_websocket"
version = "0.1.0"
edition = "2021"
publish = false

[dependencies]
headers = "0.3"
hyper = { version = "0.14", features = ["server", "http1", "tcp"] }
routerify = "3"
tokio = { version = "1", features = ["rt", "macros"] }
tokio-tungstenite = "0.14"
futures = "0.3"
log = "0.4"
serde = "1"
serde_json = "1"
