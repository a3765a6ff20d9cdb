[package]
name = "todo_cli"
version = "0.1.0"
edition = "2021"
publish = false

[dependencies]
clap = "2"
prettytable-rs = { version = "0.10", default-features = false }
serde_json = { version = "1", features = ["preserve_order"] }
simple-error = "*"
