[package]
name = "uni_stream"
version = "0.1.0"
edition = "2021"
publish = false

[dependencies]
bytes = "1"
futures = "0.3"
hashbrown = "*"
kanal = "*"
once_cell = "1"
socket2 = { version = "*", features = ["all"] }
tokio = { version = "1", features = ["io-util", "macros", "net", "rt", "rt-multi-thread", "sync", "time"] }
tracing = "0.1"
trust-dns-resolver = "*"
