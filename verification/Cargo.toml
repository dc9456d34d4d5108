[package]
name = "event_detector"
version = "0.1.0"
edition = "2021"
publish = false

[dependencies]
cortex-m = { version = "0.7", features = ["critical-section-single-core"] }
cortex-m-rt = "0.7"
rtt-target = "0.5"
stm32f4xx-hal = { version = "0.20", features = ["stm32f411"] }
