[package]
name = "taskmanager_iced"
version = "0.1.0"
edition = "2021"
publish = false

[dependencies]
unicode-segmentation = "=1.13.3"
serde_json = "=1.0.154"
fontdb = "=0.24.0"
iced = { version = "=0.14.0", default-features = false, features = ["x11", "tiny-skia", "thread-pool"] }
