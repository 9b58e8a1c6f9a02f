[package]
name = "buzz-ui"
version = "0.1.0"
edition = "2021"
publish = false

[dependencies]
egui = "*"
kurbo = "*"
peniko = "*"
png = "*"
serde = { version = "1", features = ["derive"] }
