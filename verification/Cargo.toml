[package]
name = "matrix_notify"
version = "0.1.0"
edition = "2021"
publish = false

[dependencies]
argh = "0.1"
hyper = { version = "0.14", features = ["client", "http1", "tcp"] }
hyper-tls = "0.5"
mime_guess = "2"
ruma = { version = "0.7", features = ["client-api-c", "client-ext-client-api", "client-hyper-native-tls", "rand"] }
ruma-common = { version = "0.10", features = ["events", "rand"] }
serde = { version = "1", features = ["derive"] }
serde_json = "1"
thiserror = "1"
tokio = { version = "1", features = ["macros", "rt"] }
url = "2"
