[package]
name = "point_cloud_viewer"
version = "0.1.0"
edition = "2021"
publish = false

[dependencies]
three-d = "*"
tokio = { version = "*", features = ["macros", "rt-multi-thread"] }
