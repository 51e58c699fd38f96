[package]
name = "innu"
version = "0.1.0"
edition = "2021"
publish = false

[dependencies]
anyhow = "1"
directories = "*"
eframe = { version = "*", default-features = false, features = ["default_fonts", "glow", "wayland", "x11"] }
ksni = { version = "*", features = ["blocking"] }
nmrs = "*"
notify-rust = "*"
serde = { version = "1", features = ["derive"] }
tokio = { version = "1", features = ["rt", "rt-multi-thread", "sync", "macros", "time"] }
toml = "*"
tracing = "*"
tracing-subscriber = { version = "*", features = ["env-filter"] }
zbus = "*"
zvariant = "*"
