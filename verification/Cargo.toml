[package]
name = "wishlist"
version = "0.1.0"
edition = "2021"
publish = false

[dependencies]
bson = "1.2"
mongodb = "1.2"
tokio = { version = "0.2", features = ["macros", "rt-threaded", "stream"] }
warp = "0.2"
serde = { version = "1", features = ["derive"] }
thiserror = "1"
log = "0.4"
log4rs = { version = "1", default-features = false, features = ["file_appender", "pattern_encoder"] }
chrono = "0.4"
dotenv = "0.15"
