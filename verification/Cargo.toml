[package]
name = "kramp_updater"
version = "0.1.0"
edition = "2021"
publish = false

[dependencies]
futures-util = "=0.3.34"
reqwest = { version = "=0.11.27", default-features = false, features = ["stream"] }
rfd = { version = "=0.15.4", default-features = false, features = ["xdg-portal", "tokio"] }
tokio = { version = "=1.53.2", features = ["macros", "rt-multi-thread", "fs", "io-util", "time"] }
