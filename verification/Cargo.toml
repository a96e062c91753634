[package]
name = "eaas"
version = "0.1.0"
edition = "2021"
publish = false

[dependencies]
rand = "0.9"
actix-web = "4"
actix-files = "0.6"
serde = { version = "1", features = ["derive"] }
utoipa = { version = "5", features = ["actix_extras"] }
utoipa-swagger-ui = { version = "9", features = ["actix-web", "vendored"] }
