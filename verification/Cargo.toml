[package]
name = "moleucle_3dview_rs"
version = "0.1.0"
edition = "2021"
publish = false

[dependencies]
egui = { version = "=0.33.3", default-features = false }
graphics = { version = "=0.4.9", default-features = false }
lin_alg = "=1.4.3"
nalgebra = { version = "=0.35.0", default-features = false, features = ["std"] }
