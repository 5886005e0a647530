[package]
name = "async_ping"
version = "0.1.0"
edition = "2021"
publish = false

[dependencies]
pnet_packet = "0.33"
rand = "0.8"
wrapping-macro = "*"
async-trait = "0.1"
socket2 = { version = "0.5", features = ["all"] }
tokio = { version = "1", features = ["net", "sync", "time", "rt", "rt-multi-thread", "macros"] }
tracing = "0.1"
tracing-subscriber = "0.3"
