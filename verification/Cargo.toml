[package]
name = "mp3_downloader"
version = "0.1.0"
edition = "2021"
publish = false

[dependencies]
bytes = "=1.12.1"
futures = "=0.3.34"
iced = { version = "=0.14.0", default-features = false, features = ["tokio", "x11", "tiny-skia"] }
image = { version = "=0.25.10", default-features = false, features = ["png"] }
reqwest = { version = "=0.12.28", default-features = false, features = ["json", "stream"] }
rfd = { version = "=0.17.2", default-features = false, features = ["xdg-portal"] }
serde = { version = "=1.0.229", features = ["derive"] }
thiserror = "=2.0.21"
tokio = { version = "=1.54.1", features = ["fs", "io-util"] }
url = "=2.5.8"
