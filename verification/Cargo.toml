[package]
name = "titanio"
version = "0.1.0"
edition = "2021"
publish = false
rust-version = "1.95"

[dependencies]
chrono = "=0.4.45"
dotenv = "=0.15.0"
dptree = "=0.5.1"
log = "=0.4.34"
pretty_env_logger = "=0.5.0"
reqwest = { version = "=0.12.28", features = ["json"] }
serde = { version = "=1.0.229", features = ["derive"] }
# Not used by name: teloxide-core depends on takecell, and takecell 0.1.2 asks
# for a newer compiler than rust-version. This line holds it at 0.1.1.
takecell = "=0.1.1"
teloxide = { version = "=0.17.0", features = ["macros"] }
tokio = { version = "=1.54.1", features = ["macros", "rt-multi-thread"] }
urlencoding = "=2.1.3"
