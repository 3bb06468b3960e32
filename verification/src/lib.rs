pub mod derivation;
pub mod engine;
pub mod error;
pub mod identity;
pub mod laws;
pub mod state;
pub mod store;
