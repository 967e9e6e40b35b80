[package]
name = "anime_downloader"
version = "0.1.0"
edition = "2021"
publish = false

[dependencies]
select = "*"
url = "*"
reqwest = { version = "*", default-features = false }
tokio = { version = "*", features = ["rt-multi-thread", "macros", "fs"] }
futures = "*"
clap = { version = "*", features = ["derive"] }
thiserror = "*"
tracing = "*"
tracing-subscriber = "*"
