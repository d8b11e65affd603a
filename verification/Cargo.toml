[package]
name = "thunars"
version = "0.1.0"
edition = "2021"

[dependencies]
bimap = "0.6"
homedir = "0.3"
ignore = "0.4"
ratatui = "0.28"
toml = "0.8"
