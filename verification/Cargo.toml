[package]
name = "cl_forge"
version = "0.1.0"
edition = "2021"
publish = false

[dependencies]
dotenv = "0.15"
pyo3 = "0.25"
reqwest = { version = "0.12", default-features = false, features = ["blocking", "rustls-tls"] }
secrecy = "0.10"
serde_json = "1"
thiserror = "2"
