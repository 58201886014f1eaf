[package]
name = "git_control"
version = "0.1.0"
edition = "2021"
publish = false

[dependencies]
anyhow = "1"
chrono = "0.4"
egui = "0.26"
git2 = { version = "0.19", default-features = false }
walkdir = "2"
