[package]
name = "webview_shell"
version = "0.1.0"
edition = "2021"
publish = false

[dependencies]
android_logger = { version = "0.13", default-features = false }
anyhow = "1"
core-foundation = { version = "0.9", default-features = false }
env_logger = { version = "0.11", default-features = false }
log = "0.4"
tao = { version = "0.26", default-features = false }
