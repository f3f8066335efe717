[package]
name = "peer_discovery"
version = "0.1.0"
edition = "2021"
publish = false

[dependencies]
anyhow = "*"
ssh-key = "*"
hmac = "*"
sha1 = "*"
