[package]
name = "ray_tracer"
version = "0.1.0"
edition = "2021"
publish = false

[dependencies]
rayon = "1"
tokio = { version = "1", features = ["macros", "rt-multi-thread"] }
rand = "0.9"
