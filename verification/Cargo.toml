[package]
name = "sun-remote-desktop"
version = "0.1.0"
edition = "2021"
publish = false

[dependencies]
anyhow = "1"
async-trait = "0.1"
bytes = "1"
clap = { version = "4", default-features = false, features = ["derive", "std", "help"] }
directories = "*"
fast_image_resize = "6"
font8x8 = "*"
fontdue = "0.9"
ironrdp-displaycontrol = "0.8"
ironrdp-pdu = "0.9"
ironrdp-server = "0.13"
rcgen = { version = "0.14", default-features = false, features = ["pem", "ring"] }
serde = { version = "1", features = ["derive"] }
serde_json = "1"
sha2 = "0.10"
socket2 = "*"
sspi = { version = "0.21", default-features = false }
tokio = { version = "1", features = ["full"] }
tokio-rustls = { version = "0.26", default-features = false, features = ["ring", "tls12"] }
toml = "*"
tracing = "0.1"
tracing-subscriber = { version = "0.3", default-features = false, features = ["env-filter", "fmt"] }
zeroize = "1"
