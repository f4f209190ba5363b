[package]
name = "kubeconfig_loader"
version = "0.1.0"
edition = "2021"
publish = false

[dependencies]
openssl = "=0.10.81"
reqwest = { version = "=0.12.28", default-features = false, features = ["native-tls", "rustls-tls"] }
rustls = "0.19"
