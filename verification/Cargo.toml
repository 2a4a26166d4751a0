[package]
name = "motor_driver"
version = "0.1.0"
edition = "2021"
publish = false

[dependencies]
embedded-hal = "=0.2.7"
embassy-executor = { version = "=0.5.1", features = ["arch-std", "executor-thread", "integrated-timers", "defmt"] }
embassy-stm32 = { version = "=0.1.0", features = ["stm32f103c8", "time-driver-any", "defmt"] }
embassy-time = { version = "=0.3.2", features = ["defmt"] }
defmt = "=0.3.101"
defmt-rtt = "=0.4.2"
panic-probe = { version = "=0.3.2", features = ["print-defmt"] }
