[package]
name = "syncoon"
version = "0.1.0"
edition = "2021"
publish = false

[dependencies]
keyring = { version = "=3.6.3", default-features = false, features = ["apple-native", "linux-native", "windows-native"] }
console = "=0.16.6"
dco3 = "=0.20.1"
clap = { version = "=4.6.7", features = ["derive"] }
dialoguer = "=0.12.0"
tokio = { version = "1", features = ["rt-multi-thread", "macros"] }
futures = "*"
tracing = "*"
tracing-subscriber = { version = "*", features = ["env-filter"] }
