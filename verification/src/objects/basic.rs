//! The simple kinds of object: button, light and switch.

pub mod button;
pub mod led;
pub mod switch;
