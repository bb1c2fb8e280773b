[package]
name = "fast_flow"
version = "0.1.0"
edition = "2021"
publish = false

[dependencies]
chrono = "*"
clap = { version = "*", features = ["derive"] }
daemonize = "*"
fern = "*"
log = "*"
serde = { version = "*", features = ["derive"] }
serde_json = "*"
sysinfo = "*"
tabled = "*"
terminal_size = "*"
tokio = { version = "*", features = ["rt-multi-thread", "macros"] }
