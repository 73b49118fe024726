[package]
name = "cv_camstream"
version = "0.1.0"
edition = "2021"
publish = false

[dependencies]
cv-core = "=0.10.0"
cv-pinhole = "=0.1.1"
nalgebra = "=0.21.1"
image = { version = "=0.23.14", default-features = false, features = ["jpeg"] }
rscam = { version = "=0.5.5", features = ["no_wrapper"] }
serde = { version = "=1.0.229", features = ["derive"] }
serde_any = { version = "=0.5.0", default-features = false, features = ["toml", "yaml", "json"] }
thiserror = "=1.0.69"
