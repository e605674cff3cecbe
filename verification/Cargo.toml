[package]
name = "repo_killer"
version = "0.1.0"
edition = "2021"
publish = false

[dependencies]
crossterm = "0.28"
open = "5"
ratatui = "0.29"
