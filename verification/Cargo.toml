[package]
name = "harmony_explorer"
version = "0.1.0"
edition = "2021"
publish = false

[dependencies]
pitch_calc = "=0.12.0"
sampler = "0.2.0"
sample = "0.11.0"
portaudio = "0.8.0"
find_folder = "0.3.0"
rustyline = "19.0.0"
diesel = { version = "=1.4.8", features = ["sqlite"] }
clap = { version = "4.6.7", features = ["derive"] }

[dev-dependencies]
nom = { version = "6", default-features = false, features = ["std"] }
