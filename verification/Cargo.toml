[package]
name = "nodesea"
version = "0.1.0"
edition = "2021"
publish = false

[dependencies]
rand = "*"
hex = "0.4"
clap = { version = "4", features = ["derive", "env"] }
thiserror = "2"
libc = "0.2"
sys-locale = "0.3"
tokio = { version = "1", features = ["net", "rt", "macros", "sync", "time"] }
anyhow = "1"
tracing = "0.1"
tracing-subscriber = "0.3"
bitflags = "2"
crossterm = "*"
