[package]
name = "wattseal_ui"
version = "0.1.0"
edition = "2021"
publish = false

[dependencies]
chrono = "0.4"
iced = { version = "0.14", default-features = false, features = ["canvas", "image"] }
plotters = { version = "0.3", default-features = false, features = ["line_series", "area_series", "point_series"] }
plotters-backend = "0.3"
plotters-iced2 = "*"
rand = "0.9"
