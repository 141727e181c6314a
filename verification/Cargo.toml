[package]
name = "rquery_orm"
version = "0.1.0"
edition = "2021"
publish = false

[dependencies]
anyhow = "=1.0.104"
async-trait = "=0.1.92"
chrono = "=0.4.45"
futures = "=0.3.34"
native-tls = "=0.2.18"
postgres-native-tls = "=0.5.3"
regex = "=1.13.1"
rust_decimal = { version = "=1.43.0", features = ["db-tokio-postgres"] }
tiberius = { version = "=0.13.0", features = ["chrono", "rust_decimal"] }
tokio = { version = "=1.53.2", features = ["full"] }
tokio-postgres = { version = "=0.7.18", features = ["with-chrono-0_4", "with-uuid-1"] }
tokio-util = { version = "=0.7.19", features = ["compat"] }
uuid = "=1.27.0"
