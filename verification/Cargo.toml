[package]
name = "soc"
version = "0.1.0"
edition = "2021"
publish = false

[dependencies]
d1-pac = "*"
embedded-hal = "1"
embedded-hal-nb = "1"
nb = "1"
embedded-sdmmc = "*"
vcell = "*"
spin = "*"
log = "*"
tock-registers = "*"
