[package]
name = "postgres_resource"
version = "0.1.0"
edition = "2021"
publish = false

[dependencies]
heck = "=0.5.0"
uuid = { version = "=1.27.0", features = ["serde"] }
serde = "=1.0.229"
serde_derive = "=1.0.229"
diesel = { version = "=2.3.13", default-features = false, features = ["postgres_backend"] }
