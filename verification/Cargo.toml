[package]
name = "matrix_cli"
version = "0.1.0"
edition = "2021"
publish = false

[dependencies]
url = "=2.5.8"
mime_guess = "=2.0.5"
mime = "=0.3.17"
matrix-sdk = { version = "=0.18.0", default-features = false }
tokio = { version = "=1.53.2", features = ["macros", "rt-multi-thread", "signal"] }
clap = { version = "=4.6.7", features = ["derive", "env"] }
chrono = "=0.4.45"
tabled = "=0.22.0"
