[package]
name = "og_image"
version = "0.1.0"
edition = "2021"
publish = false

[dependencies]
ab_glyph = "0.2"
image = "0.25"
imageproc = "*"
axum = "*"
axum-macros = "*"
serde = { version = "1", features = ["derive"] }
shuttle-axum = "*"
shuttle-persist = "*"
shuttle-runtime = "*"
