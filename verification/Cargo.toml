[package]
name = "piano_leds"
version = "0.1.0"
edition = "2021"
publish = false

[dependencies]
cichlid = "=0.2.1"
rand = "=0.8.8"
rs_ws281x = "=0.5.1"
portmidi = "=0.3.0"
midly = "=0.5.3"
paris = { version = "=1.5.15", features = ["macros"] }
rocket = { version = "=0.5.2", features = ["json"] }
serde = { version = "=1.0.229", features = ["derive"] }
toml = "=1.1.8"
