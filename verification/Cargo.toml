[package]
name = "ratatui_helpers"
version = "0.1.0"
edition = "2021"
publish = false

[dependencies]
ratatui = "0.29"
itertools = "0.13"
directories = "5"
serde = "1"
toml = "0.8"
