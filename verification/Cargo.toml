[package]
name = "infermp10"
version = "0.1.0"
edition = "2021"
publish = false

[dependencies]
actix-web = { version = "=4.18.1", default-features = false, features = ["macros"] }
llm = "=0.1.1"
rand = "=0.8.8"
serde = { version = "=1.0.229", features = ["derive"] }

[dev-dependencies]
llm-base = "=0.1.1"
