[package]
name = "esl_services_backend"
version = "0.1.0"
edition = "2021"
publish = false

[dependencies]
unidecode = "=0.3.0"
url = "=2.5.8"
reqwest = { version = "=0.11.27", features = ["json", "native-tls"] }
tokio = { version = "=1.54.1", features = ["rt-multi-thread", "macros", "time"] }
serde = { version = "=1.0.229", features = ["derive"] }
config = { version = "=0.13.4", default-features = false, features = ["toml"] }
log = "=0.4.34"
env_logger = "=0.10.2"
chrono = "=0.4.45"
console = "=0.15.11"
indicatif = "=0.17.11"
tui = "=0.19.0"
tui-logger = "=0.8.3"
ansi-to-tui = "=2.0.2"
custom_error = "=1.9.2"
