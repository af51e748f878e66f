[package]
name = "gcs_gateway"
version = "0.1.0"
edition = "2021"
publish = false

[dependencies]
actix-multipart = "*"
actix-rt = "*"
actix-web = "*"
base64 = "*"
dotenv = "*"
env_logger = "*"
envy = "*"
futures = "*"
google-storage1 = "*"
hyper = "*"
hyper-rustls = "*"
log = "*"
mime = "*"
sanitize-filename = "*"
serde = { version = "*", features = ["derive"] }
serde_json = "*"
yup-oauth2 = "*"
