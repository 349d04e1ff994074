[package]
name = "r-webservice"
version = "0.1.0"
edition = "2021"
publish = false

[dependencies]
actix-web = { version = "4", features = ["rustls"] }
actix-session = { version = "0.7", features = ["redis-actor-session"] }
actix-files = "0.6"
actix-rt = "2"
actix-multipart = "0.6"
actix-utils = "3"
async-trait = "0.1"
derive_more = "0.99"
futures-core = "0.3"
futures-util = "0.3"
mime = "0.3"
once_cell = "1"
regex = "1"
rustls = "0.20"
rustls-pemfile = "1"
serde = { version = "1", features = ["derive"] }
serde_json = "1"
sqlx = { version = "0.6", default-features = false, features = ["runtime-actix-rustls", "postgres", "json", "macros"] }
syn = { version = "1", features = ["full", "extra-traits"] }
quote = "1"
proc-macro2 = "1"
