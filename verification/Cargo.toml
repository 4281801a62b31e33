[package]
name = "ftctui"
version = "0.1.0"
edition = "2021"
publish = false

[dependencies]
async-lock = "3"
bitflags = "2"
cfg-if = "1"
clap = { version = "4", features = ["derive"] }
color-eyre = "0.6"
dirs = "6"
futures = "0.3"
gilrs = "0.11"
lazy_static = "1"
log = "0.4"
num_enum = "0.7"
ratatui = "0.29"
serde = { version = "1", features = ["derive"] }
serde_json = "1"
serde_repr = "0.1"
simplelog = "0.12"
tokio = { version = "1", features = ["full"] }
tokio-stream = "0.1"
xml-rs = "0.8"
