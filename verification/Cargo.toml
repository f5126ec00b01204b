[package]
name = "gematom"
version = "1.1.1"
edition = "2021"
publish = false

[dependencies]
atom_syndication = "*"
chrono = "*"
clap = "*"
glob = "*"
pathdiff = "*"
url = "*"
