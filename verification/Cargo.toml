[package]
name = "face_landmark_mp"
version = "0.1.0"
edition = "2021"
publish = false

[dependencies]
image = { version = "*", default-features = false, features = ["jpeg", "png"] }
imageproc = { version = "*", default-features = false }
nalgebra = "*"
