[package]
name = "easy_flashcards"
version = "0.1.0"
edition = "2021"
publish = false

[dependencies]
argh = "0.1"
crossterm = "0.27"
rand = "0.8"
smallvec = { version = "1", features = ["const_new"] }
