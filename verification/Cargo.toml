[package]
name = "gtk_file_dialog"
version = "0.1.0"
edition = "2021"
publish = false

[dependencies]
gtk-sys = "0.10"
glib-sys = "0.10"
gobject-sys = "0.10"
