[package]
name = "chip8"
version = "0.1.0"
edition = "2021"
publish = false

[dependencies]
anyhow = "1"
itertools = "0.10"
ncurses = "5"
rand = "0.8"
regex = "1"
sdl2 = "0.35"
termion = "1.5"
tui = { version = "0.19", default-features = false, features = ["termion"] }
