[package]
name = "r_todo"
version = "0.1.0"
edition = "2021"
publish = false

[dependencies]
chrono = "0.4"
rusqlite = "*"
ratatui = "0.29"
crossterm = "0.28"
directories = "*"
thiserror = "*"
