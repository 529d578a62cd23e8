[package]
name = "data_intuitive"
version = "0.1.0"
edition = "2021"
publish = false

[dependencies]
bcrypt = "*"
chrono = "*"
uuid = { version = "*", features = ["v4"] }
jsonwebtoken = "*"
serde = { version = "*", features = ["derive"] }
serde_json = "*"
tokio = { version = "*", features = ["full"] }
tokio-postgres = "*"
dotenv = "*"
bytes = "*"
