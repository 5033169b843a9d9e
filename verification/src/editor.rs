//! Nodes, input events and the state of the canvas under edit.

pub mod event;
pub mod node;
pub mod state;
pub mod util;
