//! Players on the session bus, as the MPRIS interface presents them.

pub mod connection;
pub mod effects;
pub mod laws;
pub mod manager;
