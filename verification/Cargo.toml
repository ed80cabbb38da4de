[package]
name = "locale_skeleton"
version = "0.1.0"
edition = "2021"
publish = false

[dependencies]
icu = { version = "=1.5.0", default-features = false }
icu_datetime = { version = "=1.5.1", features = ["experimental", "serde", "compiled_data"] }
icu_provider = { version = "=1.5.0", features = ["serde"] }
icu_provider_adapters = { version = "=1.5.0", features = ["serde"] }
icu_provider_blob = { version = "=1.5.0" }
