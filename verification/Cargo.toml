[package]
name = "lowrez_survival"
version = "0.1.0"
edition = "2021"
publish = false

[dependencies]
quad-rand = "0.2"
randomize = "3"
macroquad = "0.4"
keyframe = "1"
