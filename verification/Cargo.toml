[package]
name = "andromeda"
version = "0.1.0"
edition = "2021"
publish = false

[dependencies]
anyhow = "1"
slotmap = "1"
glam = "*"
half = "2"
bytemuck = "1"
log = "0.4"
tokio = { version = "1", features = ["rt", "rt-multi-thread", "sync", "time"] }
