[package]
name = "dmg_2025"
version = "0.1.0"
edition = "2021"
publish = false

[dependencies]
dirs-next = "2"
egui = { version = "0.28", default-features = false }
env_logger = { version = "0.11", default-features = false }
image = { version = "0.25", default-features = false, features = ["png"] }
json = "0.12"
memmap2 = "0.9"
open = "5"
profiling = { version = "1", features = ["profile-with-puffin"] }
puffin = "0.19"
puffin_egui = "0.29"
serde = { version = "1", features = ["derive"] }
serde_json = "1"
