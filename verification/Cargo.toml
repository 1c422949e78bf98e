[package]
name = "thesaurus_tui"
version = "0.1.0"
edition = "2021"
publish = false

[dependencies]
anyhow = "*"
crossterm = "*"
ratatui = "*"
reqwest = { version = "*", default-features = false, features = ["json"] }
serde = { version = "*", features = ["derive"] }
serde_json = "*"
serpapi-search-rust = "*"
tokio = { version = "*", features = ["rt-multi-thread", "macros"] }
tui-input = "*"
