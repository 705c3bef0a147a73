[package]
name = "ssh_fanout"
version = "0.1.0"
edition = "2021"
publish = false

[dependencies]
anyhow = "*"
async-trait = "*"
russh = "*"
russh-keys = "*"
systemctl = "*"
tokio = { version = "*", features = ["full"] }
