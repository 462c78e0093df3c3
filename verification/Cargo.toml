[package]
name = "gtk_glium"
version = "0.1.0"
edition = "2021"
publish = false

[dependencies]
gio = "0.18"
gl_loader = "0.1"
glib = "0.18"
glium = "*"
gtk = "0.18"
