[package]
name = "vault13"
version = "0.1.0"
edition = "2021"
publish = false

[dependencies]
clap = "2"
log = "0.4"
log4rs = "*"
sdl2 = "*"
sdl2-sys = "*"
