[package]
name = "iced_winit"
version = "0.1.0"
edition = "2021"
publish = false

[dependencies]
rustc-hash = "=2.1.3"
winit = { version = "=0.30.13", default-features = false, features = ["x11", "rwh_06"] }
futures = { version = "=0.3.34", features = ["thread-pool"] }
