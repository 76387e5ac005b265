pub mod classify;
pub mod engine;
pub mod inventory;
pub mod laws;
