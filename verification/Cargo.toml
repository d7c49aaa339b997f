[package]
name = "simple_blit"
version = "0.1.0"
edition = "2021"
publish = false

[dependencies]
image = { version = "0.25", default-features = false }
mint = "0.5"
rgb = "0.8"
serde = { version = "1", features = ["derive"] }

[dev-dependencies]
proptest = { version = "1", default-features = false, features = ["std"] }
