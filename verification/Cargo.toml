[package]
name = "secadora"
version = "0.1.0"
edition = "2021"
publish = false

[dependencies]
crc = "=3.4.0"
log = "=0.4.34"
dotenv = "=0.15.0"
log-panics = "=2.1.0"
flexi_logger = "=0.31.10"
gpio-cdev = "=0.6.0"
serialport = "=4.10.1"
tokio = { version = "=1.53.2", features = ["rt-multi-thread", "macros", "time"] }
sqlx = { version = "=0.8.6", default-features = false, features = ["postgres", "runtime-tokio"] }
frankenstein = { version = "=0.52.1", features = ["client-ureq"] }
