[package]
name = "srt-c"
version = "0.1.0"
edition = "2021"
publish = false

[dependencies]
bytes = "1"
futures = "0.3"
lazy_static = "1"
libc = "0.2"
log = "0.4"
os_socketaddr = "*"
pretty_env_logger = "*"
tokio = { version = "1", features = ["rt-multi-thread", "time"] }
