[package]
name = "tao_ohos"
version = "0.1.0"
edition = "2021"
publish = false

[dependencies]
log = "0.4"
openharmony-ability = "*"
raw-window-handle = "0.6"
url = "2"
