[package]
name = "clifana"
version = "0.1.0"
edition = "2021"
publish = false

[dependencies]
anyhow = "*"
clap = { version = "*", features = ["derive"] }
config = "*"
crossterm = "*"
fern = "*"
humantime = "*"
log = "*"
ratatui = "*"
reqwest = { version = "*", default-features = false, features = ["blocking", "form"] }
serde = { version = "*", features = ["derive"] }
