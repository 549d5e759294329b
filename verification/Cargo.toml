[package]
name = "snoo"
version = "0.1.0"
edition = "2021"
publish = false

[dependencies]
rand = "=0.10.3"
serde = { version = "=1.0.229", features = ["derive"] }
tokio = { version = "=1.53.2", features = ["rt", "sync", "time", "macros"] }
reqwest = { version = "=0.13.5", default-features = false, features = ["json", "cookies", "form"] }
chrono = "=0.4.45"
