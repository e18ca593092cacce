[package]
name = "xng"
version = "0.1.0"
edition = "2021"
publish = false

[dependencies]
chrono = "0.4"
rand = "0.8"
regex = "1"
actix-web = "4"
async-trait = "0.1"
chrono-tz = "*"
clap = { version = "4", features = ["cargo"] }
csv = "1"
exitcode = "1"
log = "0.4"
reqwest = { version = "0.11", default-features = false, features = ["json"] }
serde = { version = "1", features = ["derive"] }
serde_json = "1"
soapysdr = "*"
sqlx = { version = "0.7", default-features = false, features = ["sqlite", "runtime-tokio", "chrono"] }
stderrlog = "*"
tokio = { version = "1", features = ["full"] }
tokio-util = "0.7"
