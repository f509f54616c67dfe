[package]
name = "slimloader"
version = "0.1.0"
edition = "2021"
publish = false

[dependencies]
object = { version = "*", default-features = false, features = ["read", "build", "elf", "std", "write"] }
anyhow = "1"
clap = { version = "4", features = ["derive"] }
serde = { version = "1", features = ["derive"] }
toml = "*"
serde_yml = "*"
tempfile = "3"
tokio = { version = "1", features = ["macros", "rt-multi-thread"] }
pretty_env_logger = "*"
log = "0.4"
embedded-storage = "0.3"
embedded-storage-async = "0.4"
