[package]
name = "clipwatch"
version = "0.1.0"
edition = "2021"
publish = false

[dependencies]
arboard = "=3.7.0"
atty = "=0.2.14"
clap = { version = "=4.6.7", features = ["derive"] }
image = "=0.24.9"
regex = "=1.13.1"
string-template-plus = "=0.4.3"
subprocess = "=0.2.15"
