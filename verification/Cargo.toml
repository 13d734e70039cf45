[package]
name = "rssreader"
version = "0.1.0"
edition = "2021"
publish = false

[dependencies]
anyhow = "*"
atty = "*"
chrono = "*"
clap = { version = "*", features = ["derive"] }
log = "*"
reqwest = { version = "*", default-features = false }
rss = "*"
tokio = { version = "*", features = ["rt-multi-thread", "macros", "sync", "io-util", "time"] }
url = "*"
