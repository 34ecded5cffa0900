[package]
name = "objdiff"
version = "0.1.0"
edition = "2021"
publish = false

[dependencies]
anyhow = "1"
argp = "*"
crossterm = "*"
eframe = { version = "0.19", features = ["persistence"] }
egui = "0.19"
log = "0.4"
notify = "*"
serde = { version = "1", features = ["derive"] }
