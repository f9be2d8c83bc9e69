[package]
name = "access_sync"
version = "0.1.0"
edition = "2021"
publish = false

[dependencies]
accesskit = "0.8"
accesskit_winit = "0.7"
