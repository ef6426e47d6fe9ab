[package]
name = "img_processor"
version = "0.1.0"
edition = "2021"
publish = false

[dependencies]
actix-web = "=4.18.1"
base64 = "=0.13.1"
derive_more = { version = "=2.1.1", features = ["display", "from"] }
dotenv = "=0.15.0"
futures-lite = "=2.6.1"
image = { version = "=0.25.10", default-features = false, features = ["bmp", "dds", "ff", "gif", "hdr", "ico", "jpeg", "png", "pnm", "tga", "tiff", "webp"] }
infer = "=0.22.0"
log = "=0.4.34"
once_cell = "=1.21.4"
paperclip = { version = "=0.9.7", features = ["actix4"] }
pretty_env_logger = "=0.5.0"
serde = { version = "=1.0.229", features = ["derive"] }
serde_json = "=1.0.154"
snowflake = "=1.3.0"
webp = "=0.3.1"
