[package]
name = "qr_render"
version = "0.1.0"
edition = "2021"
publish = false

[dependencies]
qrcode = "*"
image = "*"
base64 = "*"
axum = "*"
tokio = { version = "*", features = ["macros", "rt-multi-thread", "net"] }
serde = { version = "*", features = ["derive"] }
dotenv = "*"

[dev-dependencies]
rqrr = "*"
