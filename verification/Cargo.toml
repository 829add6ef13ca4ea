[package]
name = "koushin"
version = "0.1.0"
edition = "2021"
publish = false

[dependencies]
ansi_term = "0.12"
chrono = "0.4"
clap = { version = "4", features = ["derive"] }
crossterm = "0.28"
eyre = "0.6"
inquire = "0.7"
nanoid = "0.4"
open = "5"
owo-colors = "4"
qstring = "0.7"
serde = { version = "1", features = ["derive"] }
spinners = "4"
tiny_http = "0.12"
toml = "0.8"
ureq = { version = "3", features = ["json"] }
xdg = "2"
