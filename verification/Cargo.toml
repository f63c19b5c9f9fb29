[package]
name = "typing_trainer"
version = "0.1.0"
edition = "2021"
publish = false

[dependencies]
crossterm = "*"
rusty_audio = "*"
