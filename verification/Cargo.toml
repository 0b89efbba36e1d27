[package]
name = "spotifier_core"
version = "0.1.0"
edition = "2021"
publish = false

[dependencies]
scraper = "=0.27.0"
chrono = "=0.4.45"
tokio = { version = "=1.53.2", default-features = false, features = ["rt", "macros", "time", "fs"] }
reqwest = { version = "=0.13.5", default-features = false, features = ["cookies", "form", "multipart"] }
