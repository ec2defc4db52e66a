[package]
name = "slumberd"
version = "0.1.0"
edition = "2021"
publish = false

[dependencies]
actix-web = { version = "=1.0.9", default-features = false }
# Held back for actix-web: its actix-http 0.2 subtracts chrono's Duration
# from the time crate's Tm, which compiles only while chrono takes its
# Duration from the time crate, as it does up to 0.4.19.
chrono = "=0.4.19"
futures = "=0.1.31"
log = "=0.4.34"
log4rs = "=0.8.3"
parking_lot = "=0.9.0"
rand = "=0.7.3"
serde = { version = "=1.0.229", features = ["derive"] }
serde_json = "=1.0.154"
structopt = "=0.2.18"
tokio = "=0.1.22"
uuid = { version = "=0.8.2", features = ["v4", "serde"] }
