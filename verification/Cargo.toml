[package]
name = "ftc_http"
version = "0.1.0"
edition = "2021"
publish = false

[dependencies]
url = "2"
uuid = { version = "1", features = ["v4"] }
serde = { version = "1", features = ["derive"] }
serde_json = "1"
reqwest = { version = "0.11", default-features = false, features = ["blocking", "json", "multipart", "cookies"] }
structopt = "0.3"
confy = "0.4"
walkdir = "2"
hyper = "0.11"
tokio-core = "0.1"
futures = "0.1"

[dev-dependencies]
regex = "1"
