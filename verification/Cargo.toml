[package]
name = "coreaudio_host"
version = "0.1.0"
edition = "2021"
publish = false

[dependencies]
coreaudio-rs = { version = "0.14", default-features = false, features = ["core_audio", "audio_toolbox"] }
mach2 = "0.7"
objc2-core-audio = { version = "0.3", default-features = false, features = ["std", "AudioHardware"] }
