[package]
name = "opcode_finder"
version = "0.1.0"
edition = "2021"
publish = false

[dependencies]
anyhow = "1"
capstone = "=0.14.0"
clap = { version = "4", features = ["derive"] }
log = "0.4"
memchr = "=2.8.3"
object = "=0.40.0"
pretty_env_logger = "0.5"
tokio = { version = "1", features = ["fs", "macros", "rt-multi-thread"] }
