[package]
name = "thread_models"
version = "0.1.0"
edition = "2021"
publish = false

[dependencies]
rand = "0.9"
tokio = { version = "1", features = ["rt-multi-thread", "sync", "time"] }
pollster = "0.4"
egui = "0.32"
eframe = { version = "0.32", default-features = false, features = ["default_fonts", "glow", "x11"] }
egui_extras = { version = "0.32", features = ["image", "gif"] }
rfd = { version = "0.15", default-features = false, features = ["xdg-portal", "tokio"] }
memory-stats = "1"
