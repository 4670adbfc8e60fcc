[package]
name = "wjmclock"
version = "0.1.0"
edition = "2021"
publish = false

[dependencies]
anyhow = "1"
chrono = "0.4"
chrono-tz = "*"
clap = { version = "4", features = ["derive"] }
clap_complete = "4"
directories = "*"
eframe = { version = "*", default-features = false, features = ["glow", "default_fonts", "x11"] }
egui = "*"
geojson = "*"
image = { version = "*", default-features = false, features = ["png"] }
serde = { version = "1", features = ["derive"] }
thiserror = "*"
toml = "*"
ureq = { version = "2", features = ["json"] }
