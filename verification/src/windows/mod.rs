//! Players as the system media transport controls present them.

pub mod effects;
pub mod laws;
pub mod manager;
pub mod session;
