[package]
name = "lildevil"
version = "0.1.0"
edition = "2021"
publish = false

[dependencies]
regex = "1"
ipnetwork = "0.17"
rand = "0.8"
config = "0.11"
actix-web = "3"
actix-rt = "1"
diesel = { version = "1.4", features = ["sqlite"] }
diesel_migrations = "1.4"
r2d2 = "0.8"
r2d2-diesel = "1.0"
env_logger = "0.8"
log = "0.4"
lazy_static = "1"
serde = { version = "1", features = ["derive"] }
chrono = "0.4"
