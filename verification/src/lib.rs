//! Grid-based model of interactive logic components and the wires between
//! them, with a discrete signal-propagation engine that advances one grid
//! hop per frame.

pub mod canvas;
pub mod config;
pub mod database;
pub mod document;
pub mod editor;
pub mod engine;
pub mod error;
pub mod http;
pub mod ids;
pub mod object;
pub mod objects;
pub mod simulation;
pub mod size;
pub mod ticking;
