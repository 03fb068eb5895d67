[package]
name = "redfish"
version = "0.3.0"
edition = "2021"
publish = false

[dependencies]
base64 = "=0.22.1"
fastrand = "=2.5.0"
http = "=1.5.0"
httpdate = "=1.0.3"
reqwest = { version = "0.12", default-features = false, features = ["rustls-tls", "blocking"] }
rustls = { version = "0.23", default-features = false, features = ["ring", "std"] }
secrecy = "=0.10.3"
serde = { version = "=1.0.229", features = ["derive"] }
serde_json = "=1.0.154"
serde_path_to_error = "=0.1.20"
tokio = { version = "=1.54.1", features = ["rt-multi-thread", "macros", "time"] }
tracing = "=0.1.44"
url = "=2.5.8"
