//! Main loop abstraction layer.

pub mod api;
pub mod standard;
