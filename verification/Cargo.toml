[package]
name = "report_watchdog"
version = "0.1.0"
edition = "2021"
publish = false

[dependencies]
minreq = "*"
serde = { version = "*", features = ["derive"] }
serde_json = "*"
time = { version = "*", features = ["serde-well-known", "formatting", "parsing"] }
