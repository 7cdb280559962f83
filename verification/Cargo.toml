[package]
name = "nmea_filter"
version = "0.1.0"
edition = "2021"
publish = false

[dependencies]
chrono = "*"
clap = { version = "*", features = ["derive"] }
nmea0183 = "*"
nmea = "*"
regex = "*"
