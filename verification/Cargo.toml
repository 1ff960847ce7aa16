[package]
name = "pakr"
version = "0.1.0"
edition = "2021"
publish = false

[dependencies]
clap = { version = "*", features = ["derive"] }
clap_complete = "*"
confy = "*"
serde = { version = "*", features = ["derive"] }
log = "*"
stderrlog = "*"
