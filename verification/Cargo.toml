[package]
name = "plausible_cli"
version = "1.0.0"
edition = "2021"
publish = false

[dependencies]
async-trait = "0.1"
clap = { version = "4", features = ["derive", "env"] }
directories = "*"
governor = "*"
reqwest = { version = "0.12", default-features = false, features = ["json", "rustls-tls"] }
serde = { version = "1", features = ["derive"] }
serde_json = "1"
tabled = "*"
time = { version = "0.3", features = ["formatting", "parsing", "macros", "serde", "serde-well-known"] }
tokio = { version = "1", features = ["rt-multi-thread", "macros", "sync", "time"] }
url = "2"
