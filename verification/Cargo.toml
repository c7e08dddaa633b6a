[package]
name = "doken"
version = "0.1.0"
edition = "2021"
publish = false

[dependencies]
anyhow = "1"
async-trait = "0.1"
base64 = "0.22"
chromiumoxide = { version = "*", default-features = false, features = ["tokio-runtime"] }
clap = { version = "4", features = ["derive", "env"] }
dotenv = "0.15"
env_logger = "*"
file-guard = "*"
form_urlencoded = "1"
futures = "0.3"
home = "*"
log = "0.4"
oauth2 = "5"
rand = "0.9"
reqwest = { version = "0.12", default-features = false, features = ["json", "rustls-tls"] }
rpassword = "7"
serde = { version = "1", features = ["derive"] }
serde_json = { version = "1", features = ["preserve_order"] }
serde_variant = "*"
thiserror = "*"
tiny_http = "0.12"
tokio = { version = "1", features = ["full"] }
toml = "*"
url = "2"
