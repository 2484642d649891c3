[package]
name = "postgres_mapper_derive"
version = "0.1.0"
edition = "2021"
publish = false

[dependencies]
quote = "0.3"
syn = "1"
