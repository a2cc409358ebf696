[package]
name = "layer_net"
version = "0.1.0"
edition = "2021"
publish = false

[dependencies]
nalgebra = { version = "0.32", default-features = false, features = ["std"] }
rand = "0.8"
rand_distr = "0.4"
flate2 = "1"
reqwest = { version = "0.11", default-features = false, features = ["blocking"] }
image = { version = "0.24", default-features = false, features = ["png"] }
plotters = { version = "0.3", default-features = false, features = ["bitmap_backend", "bitmap_encoder", "line_series"] }
