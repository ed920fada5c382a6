[package]
name = "modio"
version = "0.1.0"
edition = "2021"
publish = false

[dependencies]
bitflags = "2"
bytes = "1"
futures-util = "0.3"
http = "1"
http-body-util = "0.1"
hyper = "1"
mime = "0.3"
percent-encoding = "2"
pin-project-lite = "0.2"
serde = { version = "1", features = ["derive"] }
serde_json = "1"
tokio = { version = "1", features = ["fs"] }
tokio-util = { version = "0.7", features = ["io"] }
url = "2"
