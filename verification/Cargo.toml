[package]
name = "newport_imgui"
version = "0.1.0"
edition = "2021"
publish = false

[dependencies]
proc-macro2 = "1"
quote = "1"
serde = "1"
syn = "1"
winit = { version = "0.28", default-features = false, features = ["x11"] }
