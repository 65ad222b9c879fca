pub mod cli;
pub mod config;
pub mod debug;
pub mod device;
pub mod service;
pub mod keymap;
pub mod kpnav;
pub mod overlay;
pub mod render;
mod text;
