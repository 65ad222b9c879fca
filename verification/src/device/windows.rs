//! Windows device layer: virtual-key to evdev keycode mapping.
pub mod keyboard;
