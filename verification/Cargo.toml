[package]
name = "rn_user"
version = "0.1.0"
edition = "2021"
publish = false

[dependencies]
secret-cosmwasm-std = "0.10"
secret-cosmwasm-storage = "0.10"
secret-toolkit = { version = "0.3", default-features = false, features = ["utils"] }
schemars = "0.7"
serde = { version = "1.0", default-features = false, features = ["derive"] }
