[package]
name = "audio_vis"
version = "0.1.0"
edition = "2021"
publish = false

[dependencies]
minimp3 = "=0.5.2"
nannou_audio = "0.19"
rodio = "=0.19.0"
rustfft = "=6.4.1"
walkdir = "=2.5.0"
rand = "=0.8.8"
splines = "=4.4.2"
tracing = "=0.1.44"
tracing-appender = "=0.2.5"
tracing-subscriber = { version = "=0.3.23", features = ["env-filter", "chrono"] }
