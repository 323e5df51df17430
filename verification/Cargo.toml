[package]
name = "stm32_generator"
version = "0.1.0"
edition = "2021"
publish = false

[dependencies]
minijinja = "2"
serde = { version = "1", features = ["derive"] }
crossbeam-channel = "0.5"
thiserror = "2"
strum = { version = "0.27", features = ["derive"] }
log = "0.4"
env_logger = "0.11"
relm4 = { version = "*", features = ["libadwaita"] }
