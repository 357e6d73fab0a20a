[package]
name = "kirei"
version = "0.1.0"
edition = "2021"
publish = false

[dependencies]
anyhow = "1"
async-trait = "0.1"
base64 = "0.22"
clap = { version = "4", features = ["derive"] }
cliclack = "0.3"
directories = "5"
rand = "0.8"
reqwest = { version = "0.12", default-features = false, features = ["json", "rustls-tls"] }
serde = { version = "1", features = ["derive"] }
serde_json = "1"
thiserror = "1"
tiny_http = "0.12"
tokio = { version = "1", features = ["rt-multi-thread", "macros"] }
url = "2"
urlencoding = "2"
