[package]
name = "flipdot_clock"
version = "0.1.0"
edition = "2021"
publish = false

[dependencies]
anyhow = "1"
chrono = "0.4"
embedded-graphics = "0.8"
env_logger = "0.10"
flipdot-graphics = "0.1"
structopt = "0.3"
timer = "0.2"
