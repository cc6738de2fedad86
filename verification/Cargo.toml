[package]
name = "adc_spectrum"
version = "0.1.0"
edition = "2021"
publish = false

[dependencies]
cortex-m = "0.7"
cortex-m-rt = "0.7"
log = "0.4"
microfft = "0.5"
micromath = "2"
stm32h7xx-hal = { version = "*", features = ["stm32h743v"] }
