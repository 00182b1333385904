[package]
name = "issue_triage"
version = "0.1.0"
edition = "2021"
publish = false

[dependencies]
arboard = "=3.6.1"
clap = { version = "=4.6.7", features = ["derive"] }
crossterm = "=0.29.0"
octocrab = "=0.47.1"
ratatui = "=0.30.2"
tokio = { version = "=1.53.2", features = ["rt-multi-thread"] }
