[package]
name = "perfmax"
version = "0.1.0"
edition = "2021"
publish = false

[dependencies]
anyhow = "1"
dirs = "*"
eframe = { version = "*", default-features = false, features = ["default_fonts", "glow", "x11"] }
egui = "*"
futures-util = "0.3"
ksni = "0.2"
nvml-wrapper = "*"
reqwest = { version = "0.12", default-features = false, features = ["json", "stream", "rustls-tls"] }
serde = { version = "1", features = ["derive"] }
sysinfo = "*"
tokio = { version = "1", features = ["full"] }
toml = "*"
tracing = "0.1"
tracing-subscriber = { version = "0.3", features = ["env-filter"] }
which = "*"
