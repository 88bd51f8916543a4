[package]
name = "airbrakes"
version = "0.1.0"
edition = "2021"
publish = false

[dependencies]
embassy-time = { version = "*", features = ["std"] }
postcard = { version = "1", features = ["use-std"] }
serde = { version = "1", features = ["derive"] }
heapless = { version = "0.9", features = ["serde"] }
embedded-hal = "1"
embedded-hal-async = "1"
libm = "0.2"
nalgebra = "*"
csv = "1"
clap = { version = "4", features = ["derive"] }
env_logger = "*"
log = "0.4"
indicatif = "*"
indicatif-log-bridge = "*"
