[package]
name = "chess_session"
version = "0.1.0"
edition = "2021"
publish = false

[dependencies]
timecat = { version = "=1.53.0", default-features = false }
pleco = "=0.5.0"
crossterm = "=0.29.0"
arboard = "=3.7.0"
