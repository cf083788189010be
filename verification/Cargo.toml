[package]
name = "mysql_console"
version = "0.1.0"
edition = "2021"
publish = false

[dependencies]
colored = "*"
mysql = "*"
prettytable-rs = "*"
rustyline = "*"
structopt = "*"
dirs = "*"
