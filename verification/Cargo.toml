[package]
name = "tokio_postgres_rustls"
version = "0.1.0"
edition = "2021"
publish = false

[dependencies]
futures = "0.3"
ring = "0.17"
rustls = { version = "0.23", default-features = false, features = ["ring", "std", "tls12", "logging"] }
tokio = { version = "1", features = ["rt", "io-util"] }
tokio-postgres = "0.7"
tokio-rustls = { version = "0.26", default-features = false, features = ["ring", "tls12", "logging"] }

[dev-dependencies]
rcgen = { version = "0.13", default-features = false, features = ["crypto", "ring"] }
