[package]
name = "krfx"
version = "0.1.0"
edition = "2021"
publish = false

[dependencies]
sha2 = "=0.10.9"
hex = "=0.4.3"
md5 = "=0.7.0"
base64 = "=0.22.1"
url = "=2.5.8"
fastrand = "=2.5.0"
serde_json = "=1.0.154"
serde = { version = "=1.0.229", features = ["derive"] }
actix-web = { version = "=4.18.1", default-features = false, features = ["macros", "cookies"] }
actix-cors = "=0.7.2"
actix-multipart = "=0.7.2"
awc = { version = "=3.11.0", default-features = false }
sea-orm = { version = "=1.1.20", default-features = false, features = ["macros", "with-chrono", "runtime-tokio-rustls", "sqlx-postgres"] }
aws-config = { version = "=1.13.0", default-features = false, features = ["default-https-client", "rt-tokio", "credentials-process", "behavior-version-latest"] }
aws-sdk-s3 = "=1.157.0"
jsonwebtoken = { version = "=9.3.1", default-features = false }
envy = "=0.4.2"
dotenvy = "=0.15.7"
env_logger = { version = "=0.11.11", default-features = false }
chrono = { version = "=0.4.45", features = ["serde"] }
k-snowflake = "=2.1.1"

[dev-dependencies]
regex = "=1.13.1"
