[package]
name = "kovi_event_extra"
version = "0.1.0"
edition = "2021"
publish = false

[dependencies]
kovi = "=0.11.12"
rust-i18n = "=4.2.4"
struct-name = "=0.0.1"
struct-name-macro = "=0.0.2"
