[package]
name = "tedium"
version = "0.1.0"
edition = "2021"
publish = false

[dependencies]
ringbuf = "=0.2.8"
crossbeam = "=0.8.5"
rusb = "=0.9.4"
clap = { version = "=3.2.25", features = ["derive"] }
console = "=0.15.11"
thiserror = "=1.0.69"
num-complex = "=0.4.6"
audio_thread_priority = { version = "=0.38.0", default-features = false }
libc = "=0.2.191"
modular-bitfield-msb = "=0.11.2"
