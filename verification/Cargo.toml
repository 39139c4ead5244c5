[package]
name = "omron_link"
version = "0.1.0"
edition = "2021"
publish = false

[dependencies]
async-trait = "0.1"
bluer = { version = "0.17", features = ["bluetoothd"] }
chrono = "0.4"
clap = { version = "4", features = ["derive", "cargo"] }
config = { version = "0.14", default-features = false, features = ["yaml"] }
futures = "0.3"
hex = { version = "0.4", features = ["serde"] }
reqwest = { version = "0.12", default-features = false, features = ["rustls-tls"] }
serde = { version = "1", features = ["derive"] }
tokio = { version = "1", features = ["macros", "rt-multi-thread", "signal", "time"] }
tzfile = "0.1"
uuid = "1"
