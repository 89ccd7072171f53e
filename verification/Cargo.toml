[package]
name = "gtk_future_executor"
version = "0.1.0"
edition = "2021"
publish = false

[dependencies]
futures = "=0.1.31"
glib = "0.5"
gtk = "0.4"
