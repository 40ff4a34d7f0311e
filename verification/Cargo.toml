[package]
name = "vincent"
version = "0.1.0"
edition = "2021"
publish = false

[dependencies]
barrel = { version = "=0.7.0", features = ["pg"] }
carapax = { version = "=0.12.0", features = ["access"] }
chrono = "=0.4.45"
clap = { version = "=3.2.25", features = ["derive"] }
dotenv = "=0.15.0"
env_logger = "=0.9.3"
futures-util = "=0.3.34"
log = "=0.4.34"
refinery = { version = "=0.8.16", features = ["tokio-postgres"] }
serde = { version = "=1.0.229", features = ["derive"] }
tokio = { version = "=1.54.1", features = ["macros", "rt-multi-thread"] }
tokio-postgres = { version = "=0.7.18", features = ["with-chrono-0_4"] }

[dev-dependencies]
serde_json = "=1.0.154"
