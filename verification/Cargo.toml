[package]
name = "invoice_seeder"
version = "0.1.0"
edition = "2021"
publish = false

[dependencies]
rand = "*"
fake = "*"
chrono = "*"
bigdecimal = "*"
dotenv = "*"
tokio = { version = "*", features = ["macros", "rt-multi-thread"] }
sqlx = { version = "*", features = ["runtime-tokio", "postgres", "chrono", "bigdecimal"] }
