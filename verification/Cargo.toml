[package]
name = "snapshot"
version = "0.1.0"
edition = "2021"
publish = false

[dependencies]
binance = "*"
chrono = "0.4"
clap = { version = "3", features = ["derive"] }
csv = "1"
diesel = { version = "2.0", features = ["postgres"] }
log = "0.4"
serde = { version = "1", features = ["derive"] }
stderrlog = "0.5"
