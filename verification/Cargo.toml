[package]
name = "itaos"
version = "0.1.0"
edition = "2021"
publish = false

[dependencies]
bitflags = "=2.13.2"
breadthread = "=0.1.4"
clever-graphics = "=0.1.1"
cocoa = "=0.27.0"
flume = "=0.12.0"
gluten-keyboard = "=0.1.2"
log = "=0.4.34"
objc = "=0.2.7"
objc_exception = "=0.1.2"
once_cell = "=1.21.4"
orphan-crippler = "=0.1.6"
tinyvec = "=1.13.3"
