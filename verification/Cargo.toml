[package]
name = "audio_thread_priority"
version = "0.1.0"
edition = "2021"
publish = false

[dependencies]
libc = "*"
dbus = "*"
