[package]
name = "ushio"
version = "0.1.0"
edition = "2021"
publish = false

[dependencies]
time = { version = "0.3", features = ["serde", "macros"] }
serde = { version = "1", features = ["derive"] }
serde_json = { version = "1", features = ["raw_value"] }
axum = "0.8"
tokio = { version = "1", features = ["macros", "rt-multi-thread", "net"] }
redis = { version = "*", features = ["aio", "tokio-comp", "json"] }
sqlx = { version = "0.8", default-features = false, features = ["runtime-tokio", "postgres", "time", "bigdecimal", "json", "macros", "migrate"] }
bigdecimal = { version = "0.4", features = ["serde"] }
color-eyre = "0.6"
dotenvy = "0.15"
futures = "0.3"
metrics = "0.24"
rosu-v2 = "*"
rosu-mods = "*"
apply = "*"
tower = "0.5"
tower-http = { version = "0.6", features = ["trace"] }
tracing = "0.1"
tracing-subscriber = { version = "0.3", features = ["env-filter"] }
