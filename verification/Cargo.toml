[package]
name = "vps_deploy"
version = "0.1.0"
edition = "2021"
publish = false

[dependencies]
chrono = { version = "0.4", default-features = false, features = ["clock", "std"] }
dotenvy = "0.15"
ssh2 = "0.9"
