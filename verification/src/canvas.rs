//! The grid and what lies on it.

pub mod pixels;
