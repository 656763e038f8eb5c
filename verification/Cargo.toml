[package]
name = "toolbench"
version = "0.1.0"
edition = "2021"
publish = false

[dependencies]
image = "0.25"
md-5 = "0.10"
sha2 = "0.10"
rand = "0.8"
uuid = { version = "1", features = ["v4", "v7"] }
serde = { version = "1", features = ["derive"] }
