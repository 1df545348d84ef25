[package]
name = "gym_booking"
version = "0.1.0"
edition = "2021"
publish = false

[dependencies]
chrono = { version = "=0.4.45", features = ["serde"] }
chrono-tz = "=0.10.4"
confy = "=0.6.1"
jsonwebtoken = "=9.3.1"
mail-send = "=0.4.9"
password-auth = "=1.0.0"
passwords = "=3.1.19"
rocket = { version = "=0.5.2", features = ["json"] }
rocket_cors = "=0.6.0"
serde = { version = "=1.0.229", features = ["derive"] }
sqlx = { version = "=0.8.6", default-features = false, features = ["postgres", "runtime-tokio", "chrono", "derive"] }
urlencoding = "=2.1.3"
