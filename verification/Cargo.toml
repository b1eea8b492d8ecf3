[package]
name = "food_staging"
version = "0.1.0"
edition = "2021"
publish = false

[dependencies]
chrono = { version = "0.4", default-features = false, features = ["std"] }
cursive = { version = "0.20", default-features = false, features = ["crossterm-backend"] }
tokio = { version = "1", features = ["macros", "rt-multi-thread"] }
