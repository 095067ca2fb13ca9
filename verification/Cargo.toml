[package]
name = "reservation"
version = "0.1.0"
edition = "2021"
publish = false

[dependencies]
async-trait = "=0.1.92"
chrono = "=0.4.45"
prost-types = "=0.14.4"
thiserror = "=2.0.21"
sqlx = { version = "=0.9.0", default-features = false, features = ["postgres", "runtime-tokio", "chrono", "uuid", "derive"] }
