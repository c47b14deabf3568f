[package]
name = "esp32c3_demos"
version = "0.1.0"
edition = "2021"
publish = false

[dependencies]
nobcd = "=0.2.0"
libm = "=0.2.16"
critical-section = "=1.2.0"
esp-hal = { version = "=1.0.0-beta.0", features = ["esp32c3", "unstable"] }
esp-hal-embassy = { version = "=0.7.0", features = ["esp32c3"] }
esp-println = { version = "=0.13.1", features = ["esp32c3"] }
esp-backtrace = { version = "=0.15.1", features = ["esp32c3", "panic-handler", "println"] }
embassy-executor = "=0.7.0"
embassy-time = "=0.4.0"
embassy-sync = "=0.6.2"
