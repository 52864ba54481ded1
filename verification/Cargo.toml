[package]
name = "audio_guide"
version = "0.1.0"
edition = "2021"
publish = false

[dependencies]
rmp3 = "0.3"
heapless = "0.8"
smart-leds = "*"
embedded-hal = "0.2"
embassy-time = "*"
embassy-sync = "*"
embassy-executor = "*"
esp32-hal = "*"
esp-println = "*"
esp-backtrace = "*"
esp-alloc = "*"
embedded-sdmmc = "*"
static_cell = "*"
nb = "1"
log = "0.4"
