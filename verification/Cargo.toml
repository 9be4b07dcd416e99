[package]
name = "reqsign"
version = "0.1.0"
edition = "2021"
publish = false

[dependencies]
anyhow = "1"
async-trait = "0.1"
backon = "*"
bytes = "1"
chrono = "0.4"
http = "1"
log = "0.4"
quick-xml = { version = "*", features = ["serialize"] }
reqwest = { version = "*", default-features = false }
serde = { version = "1", features = ["derive"] }
serde_json = "1"
ureq = "2"
url = "2"
