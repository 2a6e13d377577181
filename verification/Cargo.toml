[package]
name = "captest"
version = "0.1.0"
edition = "2021"
publish = false

[dependencies]
base64 = "*"
clap = { version = "*", features = ["derive"] }
core-foundation = "*"
core-graphics-helmer-fork = "*"
image = { version = "*", default-features = false, features = ["png", "jpeg"] }
ocrs = "*"
reqwest = { version = "*", default-features = false, features = ["json"] }
rten = "*"
serde_json = "*"
tokio = { version = "*", features = ["macros", "rt-multi-thread"] }
