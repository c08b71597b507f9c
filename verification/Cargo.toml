[package]
name = "prod"
version = "0.1.0"
edition = "2021"
publish = false

[dependencies]
yaml-rust = "=0.4.5"
serde = { version = "=1.0.229", features = ["derive"] }
serde_json = "=1.0.154"
ureq = { version = "=2.12.1", features = ["json"] }
rpassword = "=7.5.4"
ssh2 = "=0.9.6"
ssh-rs = { version = "=0.5.0", features = ["scp"] }
temp-file = "=0.2.0"
