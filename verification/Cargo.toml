[package]
name = "v4l2_bridge"
version = "0.1.0"
edition = "2021"
publish = false

[dependencies]
anyhow = "=1.0.104"
clap = { version = "=4.6.7", features = ["derive"] }
env_logger = "=0.11.11"
gstreamer = "=0.25.4"
gstreamer-app = "=0.25.2"
kstring = "=2.0.2"
log = "=0.4.34"
