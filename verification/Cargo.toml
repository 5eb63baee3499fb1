[package]
name = "contact_sense"
version = "0.1.0"
edition = "2021"
publish = false

[dependencies]
critical-section = "1"
cortex-m = "0.7"
defmt = "0.3"
embedded-hal = "1"
rp2040-hal = "*"

[dev-dependencies]
critical-section = { version = "1", features = ["std"] }
