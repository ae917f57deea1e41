[package]
name = "zero2prod"
version = "0.1.0"
edition = "2021"
publish = false

[dependencies]
unicode-segmentation = "*"
rand = "*"
uuid = { version = "*", features = ["v4"] }
chrono = { version = "*", default-features = false, features = ["clock"] }
hmac = "*"
sha2 = "*"
hex = "*"
urlencoding = "*"
htmlescape = "*"
argon2 = "*"
base64 = "*"
actix-web = { version = "*", default-features = false, features = ["macros", "cookies"] }
actix-session = { version = "*", features = ["cookie-session"] }
sqlx = { version = "*", default-features = false, features = ["runtime-tokio", "postgres", "uuid", "chrono"] }
reqwest = { version = "*", default-features = false, features = ["json"] }
tokio = { version = "*", features = ["rt-multi-thread", "macros"] }
serde = { version = "*", features = ["derive"] }
serde_json = "*"
