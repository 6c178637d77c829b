[package]
name = "org_fullcalendar"
version = "0.1.0"
edition = "2021"
publish = false

[dependencies]
chrono = "0.4"
orgize = "0.9"
serde = { version = "1", features = ["derive"] }
serde_json = "1"
glob = "0.3"
