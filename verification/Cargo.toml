[package]
name = "graph_explorer"
version = "0.1.0"
edition = "2021"
publish = false

[dependencies]
anyhow = "1"
clap = { version = "4", features = ["derive"] }
oxigraph = { version = "0.4", default-features = false }
ratatui = "0.27"
