[package]
name = "autodesk"
version = "0.1.0"
edition = "2021"
publish = false

[dependencies]
axum = { version = "0.8", features = ["ws"] }
base64 = "0.22"
enigo = "*"
futures-util = { version = "0.3", features = ["sink"] }
image = { version = "0.25", default-features = false, features = ["jpeg"] }
rand = "*"
reqwest = { version = "0.12", default-features = false, features = ["json", "rustls-tls"] }
serde = { version = "1", features = ["derive"] }
serde_json = "1"
tokio = { version = "1", features = ["rt-multi-thread", "macros", "net", "sync", "time"] }
uuid = { version = "1", features = ["v4"] }
xcap = "*"
