[package]
name = "calendar_backend"
version = "0.1.0"
edition = "2021"
publish = false

[dependencies]
aes-gcm = "=0.10.3"
axum = { version = "=0.8.9", features = ["multipart"] }
axum-extra = { version = "=0.10.3", features = ["typed-header"] }
base64 = "=0.22.1"
chrono = { version = "=0.4.45", features = ["serde"] }
chrono-tz = "=0.10.4"
clap = { version = "=4.6.7", features = ["derive"] }
dotenv = "=0.15.0"
icalendar = "=0.16.17"
image = { version = "=0.25.10", default-features = false, features = ["jpeg", "png"] }
jsonwebtoken = "=9.3.1"
reqwest = { version = "=0.12.28", default-features = false, features = ["json"] }
rrule = "=0.14.0"
schemars = { version = "=1.2.3", features = ["chrono04", "uuid1"] }
serde = { version = "=1.0.229", features = ["derive"] }
serde_json = "=1.0.154"
serde_with = "=3.24.0"
sha2 = "=0.10.9"
sqlx = { version = "=0.8.6", default-features = false, features = ["postgres", "runtime-tokio", "chrono", "uuid", "macros", "migrate"] }
thiserror = "=2.0.21"
tokio = { version = "=1.54.1", features = ["full"] }
tower-http = { version = "=0.6.11", features = ["trace"] }
tracing = "=0.1.44"
tracing-subscriber = { version = "=0.3.23", features = ["env-filter"] }
uuid = { version = "=1.29.0", features = ["serde", "v4"] }
windows-timezones = { version = "=0.5.1", features = ["chrono-tz"] }
