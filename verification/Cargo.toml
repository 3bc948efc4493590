[package]
name = "workmux"
version = "0.1.0"
edition = "2021"
publish = false

[dependencies]
slug = "*"
anyhow = "*"
clap = { version = "*", features = ["derive"] }
console = "*"
home = "*"
pulldown-cmark = "*"
serde = { version = "*", features = ["derive"] }
serde_json = "*"
textwrap = "*"
