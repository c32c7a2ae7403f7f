//! The shaping of results for display.

pub mod table;
