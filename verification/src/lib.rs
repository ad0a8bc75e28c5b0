//! Registry of boats as single-unit ownership records.

pub mod address;
pub mod effects;
pub mod error;
pub mod events;
pub mod fee;
pub mod host;
pub mod instructions;
pub mod state;
pub mod text;
