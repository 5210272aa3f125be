[package]
name = "jq_bridge"
version = "0.1.0"
edition = "2021"
publish = false

[dependencies]
rand = "0.9"
time = "0.3"
serde = { version = "1", features = ["derive"] }
serde_json = "1"
getopts-macro = "*"
