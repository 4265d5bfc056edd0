[package]
name = "tls_bootstrap"
version = "0.1.0"
edition = "2021"
publish = false

[dependencies]
rcgen = "0.11"
time = "0.3"
rustls = "0.21"
rustls-pemfile = "1"
tokio = { version = "1", features = ["full"] }
tokio-rustls = "0.24"
hyper = { version = "0.14", features = ["full"] }

[dev-dependencies]
x509-parser = "0.15"
