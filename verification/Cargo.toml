[package]
name = "shellart"
version = "0.1.0"
edition = "2021"
publish = false

[dependencies]
anyhow = "1"
clap = { version = "4", features = ["derive"] }
crossterm = "0.27"
eframe = { version = "0.27", default-features = false, features = ["default_fonts", "glow"] }
rand = "0.8"
