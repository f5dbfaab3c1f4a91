[package]
name = "diffusion_onekey"
version = "0.1.0"
edition = "2021"
publish = false

[dependencies]
md5 = "0.7"
bollard = "0.14"
downloader = "0.2"
sudo = "0.6"
tokio = { version = "1", features = ["rt-multi-thread"] }
