[package]
name = "dew_schema_language"
version = "0.1.0"
edition = "2021"
publish = false

[dependencies]
serde_json = "=1.0.151"
const_soft_float = "=0.1.4"
