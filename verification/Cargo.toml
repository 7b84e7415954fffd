[package]
name = "oscillator"
version = "0.1.0"
edition = "2021"
publish = false

[dependencies]
clap = "=2.34.0"
config = "=0.9.3"
dirs = "=1.0.5"
env_logger = "=0.6.2"
log = "=0.4.34"
phf = { version = "=0.8.0", features = ["macros"] }
serde = { version = "=1.0.229", features = ["derive"] }
xcb = "=0.10.1"
xcb-util = { version = "=0.4.0", features = ["keysyms"] }
