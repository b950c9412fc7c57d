//! The tile server's lifecycle and the SQL functions that drive it.
pub mod functions;
pub mod lifecycle;
