[package]
name = "smart_clock"
version = "0.1.0"
edition = "2021"
publish = false

[dependencies]
chrono = "=0.4.45"
chrono-tz = "=0.10.4"
embedded-graphics = "0.7.1"
embedded-graphics-simulator = "0.4.1"
openweathermap = "=0.2.4"
rpi-led-matrix = { version = "=0.4.0", features = ["embeddedgraphics"] }
rppal = "=0.22.1"
