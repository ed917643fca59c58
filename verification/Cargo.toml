[package]
name = "bqloader"
version = "0.1.0"
edition = "2021"
publish = false

[dependencies]
base64 = "=0.23.1"
uuid = { version = "=1.27.0", features = ["v4"] }
config = "=0.15.27"
serde = "=1.0.229"
serde_derive = "=1.0.229"
log = "=0.4.34"
simple_logger = "=5.2.0"
hyper = "=1.12.0"
hyper-rustls = "=0.27.10"
yup-oauth2 = "=12.1.2"
google-bigquery2 = "=7.0.0+20251130"
google-pubsub1_beta2 = "=7.0.0+20251212"
tokio = { version = "=1.53.2", features = ["rt-multi-thread", "macros"] }
mime = "*"
