[package]
name = "pmls"
version = "0.1.0"
edition = "2021"
publish = false

[dependencies]
clap = { version = "=3.2.25", features = ["cargo"] }
dialog = "=0.3.0"
eframe = { version = "=0.18.0", features = ["persistence"] }
egui_extras = { version = "=0.18.0", features = ["image"] }
itertools = "=0.10.5"
livesplit-core = "0.12"
log = "=0.4.34"
serde = { version = "=1.0.229", features = ["derive"] }
simplelog = "=0.12.2"
toml = "=0.5.11"
walkdir = "=2.5.0"
