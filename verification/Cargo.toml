[package]
name = "datetime_page"
version = "0.1.0"
edition = "2021"
publish = false

[dependencies]
tera = "1"
once_cell = "1"
chrono = "0.4"
actix-web = "4"
actix-files = "0.6"
