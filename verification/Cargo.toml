[package]
name = "satbounty"
version = "0.1.0"
edition = "2021"
publish = false

[dependencies]
base64 = "0.13"
hex = "0.4"
markdown = "0.3"
qr_code = { version = "1.1", features = ["bmp"] }
uuid = { version = "1", features = ["v4"] }
rocket = { version = "0.5", features = ["uuid"] }
rocket_auth = { version = "0.4", default-features = false }
rocket_db_pools = { version = "0.1", features = ["sqlx_sqlite"] }
rocket_dyn_templates = { version = "0.1", features = ["tera"] }
