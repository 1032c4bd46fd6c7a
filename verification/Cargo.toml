[package]
name = "dictation"
version = "0.1.0"
edition = "2021"
publish = false

[dependencies]
dirs = "6"
toml = "0.8"
serde = { version = "1", features = ["derive"] }
libc = "0.2"
evdev = "0.12"
notify = "8"
cpal = "0.15"
whisper-rs = "*"
sherpa-onnx = "*"
vosk = "0.3"
gtk4 = "*"
gtk4-layer-shell = "*"
