[package]
name = "twitch2seikasay"
version = "0.1.0"
edition = "2021"
publish = false

[dependencies]
url = "2"
serde = "1"
serde_derive = "1"
toml = "*"
futures = "0.3"
tokio = { version = "1", features = ["rt", "sync", "macros", "time"] }
reqwest = { version = "*", default-features = false, features = ["json"] }
irc = { version = "*", default-features = false }
