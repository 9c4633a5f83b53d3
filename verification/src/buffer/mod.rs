//! The buffer: its content, its cursor, its mode and its history.

pub mod api;
pub mod laws;
pub mod motion;
pub mod update;
