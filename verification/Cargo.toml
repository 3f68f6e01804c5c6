[package]
name = "media_pipeline"
version = "0.1.0"
edition = "2021"
publish = false

[dependencies]
anyhow = "1"
byte-slice-cast = "1"
bytes = "1"
derive_more = "0.99"
env_logger = "0.9"
glib = "0.14"
gstreamer = "0.17"
gstreamer-app = "0.17"
log = "0.4"
thiserror = "1"
