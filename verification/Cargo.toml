[package]
name = "hackertuah"
version = "0.1.0"
edition = "2021"
publish = false

[dependencies]
crossterm = "0.27"
open = "5"
rand = "0.8"
ratatui = "0.23"
reqwest = { version = "0.11", features = ["json"] }
serde = { version = "1", features = ["derive"] }
tokio = { version = "1", features = ["full"] }
