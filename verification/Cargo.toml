[package]
name = "mxsend"
version = "0.2.0"
edition = "2021"
publish = false

[dependencies]
matrix-sdk = { version = "=0.17.0", default-features = false }
tokio = { version = "=1.54.1", features = ["macros", "rt-multi-thread", "signal"] }
clap = { version = "=4.6.7", default-features = false, features = ["std", "derive", "env", "help", "usage", "error-context"] }
clap-verbosity-flag = { version = "=3.0.4", default-features = false, features = ["tracing"] }
tracing = "=0.1.44"
tracing-subscriber = { version = "=0.3.23", default-features = false, features = ["std", "fmt", "registry", "env-filter"] }
anyhow = "=1.0.104"
