[package]
name = "druid_video"
version = "0.1.0"
edition = "2021"
publish = false

[dependencies]
anyhow = "1"
druid = "0.8"
glib = "0.15"
gstreamer = "0.18"
gstreamer-app = "0.18"
num-rational = "0.4"
num-traits = "0.2"
thiserror = "1"
url = "2"
