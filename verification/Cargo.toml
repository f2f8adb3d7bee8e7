[package]
name = "setmeup"
version = "0.1.0"
edition = "2021"
publish = false

[dependencies]
yaml-rust = "*"
regex = "*"
walkdir = "*"
faccess = "*"
serde_json = "*"
osshkeys = "*"
ssh2 = "*"
tempfile = "*"
clap = "*"
directories = "*"
atty = "*"
termion = "*"
termcolor = "*"
