[package]
name = "qiwi"
version = "0.1.0"
edition = "2021"
publish = false

[dependencies]
serde_json = "=1.0.151"
serde = { version = "=1.0.229", features = ["derive"] }
reqwest = { version = "=0.13.5", default-features = false, features = ["blocking", "json", "query"] }
structopt = "=0.3.26"
toml = "=1.1.7"
xdg = "=3.0.0"
env_logger = "*"
log = "*"
phonenumber = "=0.3.10"
