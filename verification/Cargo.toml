[package]
name = "irclog"
version = "0.1.0"
edition = "2021"
publish = false

[dependencies]
bson = "=0.12.3"
futures-util = "0.3"
irc = { version = "1", default-features = false, features = ["ctcp", "json_config"] }
mongodb = "=0.3.10"
time = "=0.1.45"
tokio = { version = "1", features = ["rt"] }
