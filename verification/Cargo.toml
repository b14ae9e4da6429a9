[package]
name = "tao_ohos"
version = "0.1.0"
edition = "2021"
publish = false

[dependencies]
log = "0.4"
tokio = { version = "1", features = ["rt", "time", "net"] }
url = "2"
raw-window-handle = "0.6"
dpi = "0.1"
openharmony-ability = "1.0.0-beta.5"
openharmony-ability-plugin-app-control = "1.0.0-beta.5"
openharmony-ability-plugin-window = "1.0.0-beta.5"
