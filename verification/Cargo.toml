[package]
name = "harvux"
version = "0.1.0"
edition = "2021"
publish = false

[dependencies]
reqwest = { version = "0.12", default-features = false, features = ["json", "rustls-tls"] }
chrono = "0.4"
serde = { version = "1", features = ["derive"] }
tokio = { version = "1", features = ["rt-multi-thread"] }
oo7 = { version = "0.4", default-features = false, features = ["tokio", "native_crypto"] }
anyhow = "1"
gtk4 = "0.9"
libadwaita = { version = "0.7", features = ["v1_5"] }
ksni = "0.3"
