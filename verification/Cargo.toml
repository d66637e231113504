[package]
name = "blog_graphql"
version = "0.1.0"
edition = "2021"
publish = false

[dependencies]
actix-web = "*"
async-graphql = "*"
async-graphql-actix-web = "*"
lazy_static = "*"
validator = { version = "*", features = ["derive"] }
